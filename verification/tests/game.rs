use draw_guess::canvas::{CanvasOperation, GameCanvas};
use draw_guess::caption::{center_text, overlay_guess, push_decimal, Caption};
use draw_guess::communications::{Button, ButtonArgs, ButtonState, Event, MouseButton};
use draw_guess::game::Game;
use draw_guess::game_action::GameAction;
use draw_guess::message::{GameMessage, ProtocolError};
use draw_guess::player::drawer::Drawer;
use draw_guess::player::guesser::Guesser;
use draw_guess::player::waiting_player::WaitingPlayer;
use draw_guess::player::{Player, Role};

fn waiting() -> Game {
    Game::new(String::from("127.0.0.1:4912"))
}

fn host() -> Game {
    let mut game = waiting();
    game.establish_connection(true);
    game
}

fn joiner() -> Game {
    let mut game = waiting();
    game.establish_connection(false);
    game
}

fn canvas_ops(game: &mut Game) -> Vec<CanvasOperation> {
    let mut ops = Vec::new();
    while let Some(op) = game.next_canvas_op() {
        ops.push(op);
    }
    ops
}

fn run(game: &mut Game) {
    while game.dispatch() {}
}

fn centered(text: &str, x: u32, y: u32) -> Caption {
    Caption { text: String::from(text), x, y, centered: true }
}

fn plain(text: &str, x: u32, y: u32) -> Caption {
    Caption { text: String::from(text), x, y, centered: false }
}

fn decimal(n: u64) -> String {
    let mut s = String::new();
    push_decimal(&mut s, n);
    s
}

#[test]
fn new_game_waits_for_its_connection() {
    let mut game = waiting();
    assert_eq!(
        *game.role(),
        Role::WaitingForConnection(WaitingPlayer::new(String::from("127.0.0.1:4912")))
    );
    assert_eq!(game.take_outgoing(), Vec::<u8>::new());
    assert_eq!(game.next_canvas_op(), None);
    assert!(!game.dispatch());
}

#[test]
fn host_draws_and_joiner_guesses() {
    match host().role() {
        Role::Drawer(Drawer::PickingWord(words)) => assert_eq!(words.len(), 3),
        other => panic!("unexpected: {:?}", other),
    }
    assert_eq!(*joiner().role(), Role::Guesser(Guesser::WaitingForDrawer));
}

#[test]
fn translate_message_keeps_the_content() {
    assert_eq!(Game::translate_message(GameMessage::Draw(1, 2)), GameAction::Draw(1, 2));
    assert_eq!(
        Game::translate_message(GameMessage::SetTimeRemaining(7)),
        GameAction::SetTimeRemaining(7)
    );
    assert_eq!(
        Game::translate_message(GameMessage::SetWordSkeleton(String::from("__"))),
        GameAction::SetWordSkeleton(String::from("__"))
    );
    assert_eq!(
        Game::translate_message(GameMessage::Guess(String::from("ab"))),
        GameAction::Guess(String::from("ab"))
    );
    assert_eq!(
        Game::translate_message(GameMessage::GuessResult(Some(String::from("ab")))),
        GameAction::GuessResult(Some(String::from("ab")))
    );
    assert_eq!(
        Game::translate_message(GameMessage::GuessResult(None)),
        GameAction::GuessResult(None)
    );
    assert_eq!(
        Game::translate_message(GameMessage::GameOver(String::from("ab"))),
        GameAction::GameOver(String::from("ab"))
    );
    assert_eq!(Game::translate_message(GameMessage::SwapRoles), GameAction::SwapRoles);
    assert_eq!(Game::translate_message(GameMessage::Erase(3, 4)), GameAction::Erase(3, 4));
    assert_eq!(
        Game::translate_message(GameMessage::DrawLine(1, 2, 3, 4)),
        GameAction::DrawLine(1, 2, 3, 4)
    );
    assert_eq!(
        Game::translate_message(GameMessage::EraseLine(1, 2, 3, 4)),
        GameAction::EraseLine(1, 2, 3, 4)
    );
}

#[test]
fn strokes_reach_the_canvas_in_blue() {
    let mut game = joiner();
    game.process_action(GameAction::Draw(1, 2));
    game.process_action(GameAction::Erase(3, 4));
    game.process_action(GameAction::DrawLine(1, 2, 3, 4));
    game.process_action(GameAction::EraseLine(5, 6, 7, 8));
    game.process_action(GameAction::Tick);
    assert_eq!(
        canvas_ops(&mut game),
        vec![
            CanvasOperation::Pixel(1, 2, 0, 0, 255),
            CanvasOperation::Erase(3, 4),
            CanvasOperation::Line(1, 2, 3, 4, 0, 0, 255),
            CanvasOperation::EraseLine(5, 6, 7, 8),
        ]
    );
    assert_eq!(*game.role(), Role::Guesser(Guesser::WaitingForDrawer));
}

#[test]
fn swap_clears_the_canvas_and_swaps_the_role() {
    let mut game = joiner();
    game.process_action(GameAction::SwapRoles);
    assert_eq!(canvas_ops(&mut game), vec![CanvasOperation::Clear]);
    assert!(matches!(game.role(), Role::Drawer(Drawer::PickingWord(_))));
    game.process_action(GameAction::SwapRoles);
    assert_eq!(canvas_ops(&mut game), vec![CanvasOperation::Clear]);
    assert_eq!(*game.role(), Role::Guesser(Guesser::WaitingForDrawer));
}

#[test]
fn waiting_game_does_not_swap() {
    let mut game = waiting();
    let before = game.role().clone();
    game.process_action(GameAction::SwapRoles);
    assert_eq!(*game.role(), before);
    assert_eq!(canvas_ops(&mut game), vec![CanvasOperation::Clear]);
}

#[test]
fn waiting_game_draws_on_its_own_canvas() {
    let mut game = waiting();
    game.process_event(Event::MouseCursor(16, 24));
    game.process_event(Event::Button(ButtonArgs {
        state: ButtonState::Press,
        button: Button::Mouse(MouseButton::Left),
    }));
    game.process_event(Event::MouseCursor(48, 24));
    run(&mut game);
    assert_eq!(
        canvas_ops(&mut game),
        vec![CanvasOperation::Pixel(2, 3, 0, 0, 255), CanvasOperation::Line(2, 3, 6, 3, 0, 0, 255)]
    );
    assert_eq!(game.take_outgoing(), Vec::<u8>::new());
    let mut canvas = GameCanvas::new(100, 100);
    canvas.enqueue(CanvasOperation::Pixel(2, 3, 0, 0, 255));
    canvas.enqueue(CanvasOperation::Line(2, 3, 6, 3, 0, 0, 255));
    canvas.process_pending();
    for x in 2..6 {
        assert_eq!(canvas.pixel(x, 3), Some((0, 0, 255, 255)));
    }
    assert_eq!(canvas.pixel(6, 3), Some((255, 255, 255, 255)));
}

#[test]
fn receive_posts_what_the_peer_sent() {
    let mut game = joiner();
    let mut bytes = GameMessage::SetWordSkeleton(String::from("____")).to_bytes();
    bytes.extend_from_slice(&GameMessage::SetTimeRemaining(99).to_bytes());
    assert_eq!(game.receive(&bytes), Ok(9));
    assert_eq!(game.receive(&bytes[9..]), Ok(5));
    assert_eq!(*game.role(), Role::Guesser(Guesser::WaitingForDrawer));
    run(&mut game);
    assert_eq!(
        *game.role(),
        Role::Guesser(Guesser::Guessing(99, String::from("____"), String::new()))
    );
}

#[test]
fn receive_reports_what_it_cannot_read() {
    let mut game = joiner();
    assert_eq!(game.receive(&[77]), Err(ProtocolError::UnknownTag(77)));
    assert_eq!(game.receive(&[]), Err(ProtocolError::MalformedLength));
    assert_eq!(game.receive(&[3, 0, 0, 0, 1, 0xff]), Err(ProtocolError::MalformedText));
    assert!(!game.dispatch());
}

#[test]
fn dispatch_takes_one_action_at_a_time() {
    let mut game = joiner();
    assert_eq!(game.receive(&GameMessage::SetWordSkeleton(String::from("__")).to_bytes()), Ok(7));
    game.process_event(Event::Button(ButtonArgs {
        state: ButtonState::Press,
        button: Button::Keyboard(0x61),
    }));
    assert!(game.dispatch());
    assert_eq!(
        *game.role(),
        Role::Guesser(Guesser::Guessing(100, String::from("__"), String::new()))
    );
    assert!(game.dispatch());
    assert_eq!(
        *game.role(),
        Role::Guesser(Guesser::Guessing(100, String::from("__"), String::from("a")))
    );
    assert!(!game.dispatch());
}

#[test]
fn a_round_between_two_peers() {
    let mut drawer = host();
    let mut guesser = joiner();
    let deliver = |from: &mut Game, to: &mut Game| {
        let bytes = from.take_outgoing();
        let mut at = 0;
        while at < bytes.len() {
            at += to.receive(&bytes[at..]).unwrap();
        }
        run(to);
    };
    let word = match drawer.role() {
        Role::Drawer(Drawer::PickingWord(words)) => words[0].clone(),
        other => panic!("unexpected: {:?}", other),
    };
    drawer.process_action(GameAction::TypeNumber(1));
    deliver(&mut drawer, &mut guesser);
    assert_eq!(
        *guesser.role(),
        Role::Guesser(Guesser::Guessing(100, "_".repeat(word.len()), String::new()))
    );
    drawer.process_action(GameAction::LeftClick(4, 5));
    run(&mut drawer);
    deliver(&mut drawer, &mut guesser);
    assert_eq!(canvas_ops(&mut drawer), vec![CanvasOperation::Pixel(4, 5, 0, 0, 255)]);
    assert_eq!(canvas_ops(&mut guesser), vec![CanvasOperation::Pixel(4, 5, 0, 0, 255)]);
    drawer.process_action(GameAction::Update(1_000_001));
    run(&mut drawer);
    deliver(&mut drawer, &mut guesser);
    assert_eq!(*drawer.role(), Role::Drawer(Drawer::Drawing(word.clone(), 0, 99)));
    assert_eq!(
        *guesser.role(),
        Role::Guesser(Guesser::Guessing(99, "_".repeat(word.len()), String::new()))
    );
    for c in word.chars() {
        guesser.process_action(GameAction::TypeLetter(c));
    }
    guesser.process_action(GameAction::Enter);
    deliver(&mut guesser, &mut drawer);
    assert_eq!(*drawer.role(), Role::Drawer(Drawer::Done(true)));
    deliver(&mut drawer, &mut guesser);
    assert_eq!(*guesser.role(), Role::Guesser(Guesser::Done(true, word.clone())));
    drawer.process_action(GameAction::TypeLetter('y'));
    run(&mut drawer);
    deliver(&mut drawer, &mut guesser);
    assert_eq!(*drawer.role(), Role::Guesser(Guesser::WaitingForDrawer));
    assert!(matches!(guesser.role(), Role::Drawer(Drawer::PickingWord(_))));
    assert_eq!(canvas_ops(&mut drawer), vec![CanvasOperation::Clear]);
    assert_eq!(canvas_ops(&mut guesser), vec![CanvasOperation::Clear]);
}

#[test]
fn decimal_notation() {
    assert_eq!(decimal(0), "0");
    assert_eq!(decimal(7), "7");
    assert_eq!(decimal(10), "10");
    assert_eq!(decimal(100), "100");
    assert_eq!(decimal(4_294_967_295), "4294967295");
    assert_eq!(decimal(u64::MAX), "18446744073709551615");
    let mut s = String::from("t=");
    push_decimal(&mut s, 42);
    assert_eq!(s, "t=42");
}

#[test]
fn guess_is_written_over_the_skeleton() {
    assert_eq!(overlay_guess("____", ""), "____");
    assert_eq!(overlay_guess("____", "tr"), "tr__");
    assert_eq!(overlay_guess("___ _____", "icec"), "icec_____");
    assert_eq!(overlay_guess("__", "abcd"), "ab");
    assert_eq!(overlay_guess("", "ab"), "");
}

#[test]
fn center_text_makes_a_centred_caption() {
    assert_eq!(center_text(String::from("hi"), 3, 4), centered("hi", 3, 4));
}

#[test]
fn waiting_player_shows_the_address() {
    assert_eq!(
        waiting().render(),
        vec![centered("Waiting for Connection...", 400, 150), centered("127.0.0.1:4912", 400, 250)]
    );
}

#[test]
fn picking_drawer_shows_the_numbered_words() {
    let drawer = Drawer::PickingWord(vec![
        String::from("tree"),
        String::from("ice cream"),
        String::from("book"),
    ]);
    assert_eq!(
        drawer.render(),
        vec![
            centered("Pick Word", 400, 50),
            centered("[1] tree", 400, 100),
            centered("[2] ice cream", 400, 150),
            centered("[3] book", 400, 200),
        ]
    );
}

#[test]
fn picking_drawer_numbers_beyond_nine() {
    let words: Vec<String> = (0..12).map(|i| format!("w{}", i)).collect();
    let captions = Drawer::PickingWord(words).render();
    assert_eq!(captions.len(), 13);
    assert_eq!(captions[10], centered("[10] w9", 400, 550));
    assert_eq!(captions[12], centered("[12] w11", 400, 650));
}

#[test]
fn drawing_drawer_shows_word_and_clock() {
    assert_eq!(
        Drawer::Drawing(String::from("tree"), 5, 87).render(),
        vec![centered("Drawing 'tree'", 400, 50), plain("87", 10, 30)]
    );
}

#[test]
fn finished_drawer_shows_the_outcome() {
    assert_eq!(
        Drawer::Done(true).render(),
        vec![centered("You Win", 400, 150), centered("[y] Play Again?", 400, 250)]
    );
    assert_eq!(
        Drawer::Done(false).render(),
        vec![centered("Time's Up", 400, 150), centered("[y] Play Again?", 400, 250)]
    );
}

#[test]
fn guesser_shows_its_state() {
    assert_eq!(Guesser::WaitingForDrawer.render(), vec![centered("Waiting for Drawer", 400, 50)]);
    assert_eq!(
        Guesser::Guessing(7, String::from("___ _"), String::from("ab")).render(),
        vec![centered("ab_ _", 400, 50), plain("7", 10, 30)]
    );
    assert_eq!(
        Guesser::Done(true, String::from("tree")).render(),
        vec![centered("You Win", 400, 150), centered("'tree'", 400, 250)]
    );
    assert_eq!(
        Guesser::Done(false, String::from("tree")).render(),
        vec![centered("Time's Up", 400, 150), centered("'tree'", 400, 250)]
    );
}

#[test]
fn game_renders_its_role() {
    assert_eq!(joiner().render(), vec![centered("Waiting for Drawer", 400, 50)]);
    let captions = host().render();
    assert_eq!(captions.len(), 4);
    assert_eq!(captions[0], centered("Pick Word", 400, 50));
}

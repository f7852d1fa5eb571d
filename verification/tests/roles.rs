use draw_guess::communications::Communications;
use draw_guess::game_action::GameAction;
use draw_guess::message::GameMessage;
use draw_guess::player::drawer::{make_skeleton, Drawer};
use draw_guess::player::guesser::Guesser;
use draw_guess::player::waiting_player::WaitingPlayer;
use draw_guess::player::{Player, Role, DRAWING_TIME, TICK_PERIOD};

const WORDS: [&str; 8] =
    ["bike", "snowman", "tree", "flower", "basketball", "mountain", "turtle", "book"];

fn connected() -> Communications {
    Communications::new(Some(Vec::new()))
}

fn sent(hub: &mut Communications) -> Vec<u8> {
    hub.take_outgoing()
}

fn frames(messages: &[GameMessage]) -> Vec<u8> {
    let mut bytes = Vec::new();
    for m in messages {
        m.send(&mut bytes);
    }
    bytes
}

fn posted(hub: &mut Communications) -> Vec<GameAction> {
    let mut actions = Vec::new();
    while let Some(action) = hub.next_action() {
        actions.push(action);
    }
    actions
}

fn picking() -> Drawer {
    Drawer::PickingWord(vec![String::from("tree"), String::from("ice cream"), String::from("book")])
}

fn drawing(elapsed: u64, remaining: u32) -> Drawer {
    Drawer::Drawing(String::from("tree"), elapsed, remaining)
}

fn guessing(guess: &str) -> Guesser {
    Guesser::Guessing(42, String::from("____"), String::from(guess))
}

fn assert_fresh(drawer: &Drawer) {
    match drawer {
        Drawer::PickingWord(words) => {
            assert_eq!(words.len(), 3);
            assert_ne!(words[0], words[1]);
            assert_ne!(words[0], words[2]);
            assert_ne!(words[1], words[2]);
            for w in words {
                assert!(WORDS.contains(&w.as_str()));
            }
        }
        other => panic!("not picking: {:?}", other),
    }
}

#[test]
fn full_time_and_tick_period() {
    assert_eq!(DRAWING_TIME, 100);
    assert_eq!(TICK_PERIOD, 1_000_000);
}

#[test]
fn skeleton_masks_all_but_spaces() {
    assert_eq!(make_skeleton("tree"), "____");
    assert_eq!(make_skeleton("ice cream"), "___ _____");
    assert_eq!(make_skeleton(""), "");
    assert_eq!(make_skeleton("  "), "  ");
    assert_eq!(make_skeleton(" a b "), " _ _ ");
}

#[test]
fn skeleton_has_one_mask_per_character() {
    assert_eq!(make_skeleton("über"), "____");
    assert_eq!(make_skeleton("世界 🎨"), "__ _");
    assert_eq!(make_skeleton("a_b"), "___");
}

#[test]
fn new_drawer_picks_three_distinct_words() {
    for _ in 0..200 {
        assert_fresh(&Drawer::new());
    }
}

#[test]
fn new_drawer_varies_its_words() {
    let first = Drawer::new();
    let mut varied = false;
    for _ in 0..200 {
        if Drawer::new() != first {
            varied = true;
        }
    }
    assert!(varied);
}

#[test]
fn new_guesser_waits_for_the_drawer() {
    assert_eq!(Guesser::new(), Guesser::WaitingForDrawer);
}

#[test]
fn drawer_picks_a_word_by_number() {
    let mut hub = connected();
    let next = picking().process_action(&mut hub, GameAction::TypeNumber(2));
    assert_eq!(
        next,
        Some(Role::Drawer(Drawer::Drawing(String::from("ice cream"), 0, DRAWING_TIME)))
    );
    assert_eq!(
        sent(&mut hub),
        frames(&[GameMessage::SetWordSkeleton(String::from("___ _____"))])
    );
    assert_eq!(posted(&mut hub), vec![]);
}

#[test]
fn drawer_picks_the_first_and_the_last_word() {
    let mut hub = connected();
    assert_eq!(
        picking().process_action(&mut hub, GameAction::TypeNumber(1)),
        Some(Role::Drawer(Drawer::Drawing(String::from("tree"), 0, 100)))
    );
    assert_eq!(
        picking().process_action(&mut hub, GameAction::TypeNumber(3)),
        Some(Role::Drawer(Drawer::Drawing(String::from("book"), 0, 100)))
    );
}

#[test]
fn drawer_ignores_numbers_out_of_range() {
    let mut hub = connected();
    assert_eq!(picking().process_action(&mut hub, GameAction::TypeNumber(0)), None);
    assert_eq!(picking().process_action(&mut hub, GameAction::TypeNumber(4)), None);
    assert_eq!(picking().process_action(&mut hub, GameAction::TypeNumber(255)), None);
    assert_eq!(sent(&mut hub), Vec::<u8>::new());
}

#[test]
fn picking_drawer_ignores_other_actions() {
    let mut hub = connected();
    for action in [
        GameAction::Tick,
        GameAction::Update(5_000_000),
        GameAction::LeftClick(1, 1),
        GameAction::TypeLetter('y'),
        GameAction::Guess(String::from("tree")),
        GameAction::Enter,
    ] {
        assert_eq!(picking().process_action(&mut hub, action), None);
    }
    assert_eq!(sent(&mut hub), Vec::<u8>::new());
    assert_eq!(posted(&mut hub), vec![]);
}

#[test]
fn drawer_clicks_draw_here_and_there() {
    let mut hub = connected();
    assert_eq!(drawing(0, 50).process_action(&mut hub, GameAction::LeftClick(3, 4)), None);
    assert_eq!(sent(&mut hub), frames(&[GameMessage::Draw(3, 4)]));
    assert_eq!(posted(&mut hub), vec![GameAction::Draw(3, 4)]);
    assert_eq!(drawing(0, 50).process_action(&mut hub, GameAction::RightClick(5, 6)), None);
    assert_eq!(sent(&mut hub), frames(&[GameMessage::Erase(5, 6)]));
    assert_eq!(posted(&mut hub), vec![GameAction::Erase(5, 6)]);
}

#[test]
fn drawer_accumulates_updates() {
    let mut hub = connected();
    assert_eq!(
        drawing(200_000, 50).process_action(&mut hub, GameAction::Update(300_000)),
        Some(Role::Drawer(drawing(500_000, 50)))
    );
    assert_eq!(posted(&mut hub), vec![]);
    assert_eq!(sent(&mut hub), Vec::<u8>::new());
}

#[test]
fn drawer_does_not_tick_at_exactly_one_period() {
    let mut hub = connected();
    assert_eq!(
        drawing(400_000, 50).process_action(&mut hub, GameAction::Update(600_000)),
        Some(Role::Drawer(drawing(1_000_000, 50)))
    );
    assert_eq!(posted(&mut hub), vec![]);
}

#[test]
fn drawer_ticks_beyond_one_period() {
    let mut hub = connected();
    assert_eq!(
        drawing(400_000, 50).process_action(&mut hub, GameAction::Update(600_001)),
        Some(Role::Drawer(drawing(0, 50)))
    );
    assert_eq!(posted(&mut hub), vec![GameAction::Tick]);
    assert_eq!(sent(&mut hub), Vec::<u8>::new());
}

#[test]
fn drawer_ticks_on_a_very_long_update() {
    let mut hub = connected();
    assert_eq!(
        drawing(1_000_000, 50).process_action(&mut hub, GameAction::Update(u64::MAX)),
        Some(Role::Drawer(drawing(0, 50)))
    );
    assert_eq!(
        drawing(u64::MAX, 50).process_action(&mut hub, GameAction::Update(0)),
        Some(Role::Drawer(drawing(0, 50)))
    );
    assert_eq!(posted(&mut hub), vec![GameAction::Tick, GameAction::Tick]);
}

#[test]
fn tick_counts_the_seconds_down() {
    let mut hub = connected();
    assert_eq!(
        drawing(700_000, 50).process_action(&mut hub, GameAction::Tick),
        Some(Role::Drawer(drawing(0, 49)))
    );
    assert_eq!(sent(&mut hub), frames(&[GameMessage::SetTimeRemaining(49)]));
}

#[test]
fn last_tick_ends_the_round() {
    let mut hub = connected();
    assert_eq!(
        drawing(0, 1).process_action(&mut hub, GameAction::Tick),
        Some(Role::Drawer(Drawer::Done(false)))
    );
    assert_eq!(
        sent(&mut hub),
        frames(&[GameMessage::SetTimeRemaining(0), GameMessage::GameOver(String::from("tree"))])
    );
}

#[test]
fn tick_at_zero_stays_at_zero() {
    let mut hub = connected();
    assert_eq!(
        drawing(0, 0).process_action(&mut hub, GameAction::Tick),
        Some(Role::Drawer(Drawer::Done(false)))
    );
    assert_eq!(
        sent(&mut hub),
        frames(&[GameMessage::SetTimeRemaining(0), GameMessage::GameOver(String::from("tree"))])
    );
}

#[test]
fn right_guess_wins() {
    let mut hub = connected();
    assert_eq!(
        drawing(0, 50).process_action(&mut hub, GameAction::Guess(String::from("tree"))),
        Some(Role::Drawer(Drawer::Done(true)))
    );
    assert_eq!(sent(&mut hub), frames(&[GameMessage::GuessResult(Some(String::from("tree")))]));
}

#[test]
fn wrong_guess_changes_nothing() {
    let mut hub = connected();
    assert_eq!(
        drawing(0, 50).process_action(&mut hub, GameAction::Guess(String::from("book"))),
        None
    );
    assert_eq!(sent(&mut hub), frames(&[GameMessage::GuessResult(None)]));
}

#[test]
fn drawing_drawer_ignores_other_actions() {
    let mut hub = connected();
    for action in [
        GameAction::TypeNumber(1),
        GameAction::TypeLetter('y'),
        GameAction::Enter,
        GameAction::DeleteLetter,
        GameAction::SetTimeRemaining(3),
        GameAction::LeftClickDrag(1, 1, 2, 2),
        GameAction::RightClickDrag(1, 1, 2, 2),
        GameAction::Draw(1, 1),
        GameAction::GameOver(String::from("x")),
    ] {
        assert_eq!(drawing(10, 50).process_action(&mut hub, action), None);
    }
    assert_eq!(sent(&mut hub), Vec::<u8>::new());
    assert_eq!(posted(&mut hub), vec![]);
}

#[test]
fn finished_drawer_offers_another_round() {
    let mut hub = connected();
    assert_eq!(Drawer::Done(true).process_action(&mut hub, GameAction::TypeLetter('y')), None);
    assert_eq!(posted(&mut hub), vec![GameAction::SwapRoles]);
    assert_eq!(sent(&mut hub), frames(&[GameMessage::SwapRoles]));
}

#[test]
fn finished_drawer_ignores_other_keys() {
    let mut hub = connected();
    assert_eq!(Drawer::Done(false).process_action(&mut hub, GameAction::TypeLetter('n')), None);
    assert_eq!(Drawer::Done(false).process_action(&mut hub, GameAction::Enter), None);
    assert_eq!(Drawer::Done(false).process_action(&mut hub, GameAction::Tick), None);
    assert_eq!(posted(&mut hub), vec![]);
    assert_eq!(sent(&mut hub), Vec::<u8>::new());
}

#[test]
fn swap_symmetry() {
    let mut hub = connected();
    for drawer in [picking(), drawing(3, 7), Drawer::Done(true), Drawer::Done(false)] {
        assert_eq!(
            drawer.process_action(&mut hub, GameAction::SwapRoles),
            Some(Role::Guesser(Guesser::WaitingForDrawer))
        );
    }
    for guesser in [
        Guesser::WaitingForDrawer,
        guessing("ab"),
        Guesser::Done(true, String::from("tree")),
        Guesser::Done(false, String::from("tree")),
    ] {
        match guesser.process_action(&mut hub, GameAction::SwapRoles) {
            Some(Role::Drawer(drawer)) => assert_fresh(&drawer),
            other => panic!("not a drawer: {:?}", other),
        }
    }
    assert_eq!(sent(&mut hub), Vec::<u8>::new());
    assert_eq!(posted(&mut hub), vec![]);
}

#[test]
fn guesser_starts_guessing_with_the_skeleton() {
    let mut hub = connected();
    assert_eq!(
        Guesser::WaitingForDrawer
            .process_action(&mut hub, GameAction::SetWordSkeleton(String::from("___ _"))),
        Some(Role::Guesser(Guesser::Guessing(DRAWING_TIME, String::from("___ _"), String::new())))
    );
}

#[test]
fn waiting_guesser_ignores_other_actions() {
    let mut hub = connected();
    for action in [
        GameAction::TypeLetter('a'),
        GameAction::SetTimeRemaining(3),
        GameAction::Enter,
        GameAction::GameOver(String::from("x")),
        GameAction::GuessResult(None),
    ] {
        assert_eq!(Guesser::WaitingForDrawer.process_action(&mut hub, action), None);
    }
    assert_eq!(sent(&mut hub), Vec::<u8>::new());
}

#[test]
fn guesser_takes_the_time_from_the_drawer() {
    let mut hub = connected();
    assert_eq!(
        guessing("ab").process_action(&mut hub, GameAction::SetTimeRemaining(41)),
        Some(Role::Guesser(Guesser::Guessing(41, String::from("____"), String::from("ab"))))
    );
}

#[test]
fn guesser_types_up_to_the_length_of_the_skeleton() {
    let mut hub = connected();
    assert_eq!(
        guessing("abc").process_action(&mut hub, GameAction::TypeLetter('d')),
        Some(Role::Guesser(guessing("abcd")))
    );
    assert_eq!(guessing("abcd").process_action(&mut hub, GameAction::TypeLetter('e')), None);
}

#[test]
fn guesser_input_bound() {
    let mut hub = connected();
    let mut role = Role::Guesser(Guesser::Guessing(9, String::from("___"), String::new()));
    let keys = "abcdefg";
    for (i, c) in keys.chars().enumerate() {
        if let Some(next) = role.process_action(&mut hub, GameAction::TypeLetter(c)) {
            role = next;
        }
        if i % 3 == 2 {
            if let Some(next) = role.process_action(&mut hub, GameAction::DeleteLetter) {
                role = next;
            }
        }
        match &role {
            Role::Guesser(Guesser::Guessing(_, skeleton, guess)) => {
                assert!(guess.chars().count() <= skeleton.chars().count());
            }
            other => panic!("not guessing: {:?}", other),
        }
    }
    assert_eq!(role, Role::Guesser(Guesser::Guessing(9, String::from("___"), String::from("abg"))));
}

#[test]
fn guesser_counts_characters_not_bytes() {
    let mut hub = connected();
    let full = Guesser::Guessing(9, String::from("__"), String::from("éé"));
    assert_eq!(full.process_action(&mut hub, GameAction::TypeLetter('a')), None);
    assert_eq!(full.process_action(&mut hub, GameAction::Enter), None);
    assert_eq!(sent(&mut hub), frames(&[GameMessage::Guess(String::from("éé"))]));
}

#[test]
fn guesser_deletes_the_last_letter() {
    let mut hub = connected();
    assert_eq!(
        guessing("ab").process_action(&mut hub, GameAction::DeleteLetter),
        Some(Role::Guesser(guessing("a")))
    );
    assert_eq!(guessing("").process_action(&mut hub, GameAction::DeleteLetter), None);
}

#[test]
fn guesser_submits_a_complete_guess() {
    let mut hub = connected();
    assert_eq!(guessing("tree").process_action(&mut hub, GameAction::Enter), None);
    assert_eq!(sent(&mut hub), frames(&[GameMessage::Guess(String::from("tree"))]));
}

#[test]
fn guesser_keeps_an_incomplete_guess() {
    let mut hub = connected();
    assert_eq!(guessing("tre").process_action(&mut hub, GameAction::Enter), None);
    assert_eq!(guessing("").process_action(&mut hub, GameAction::Enter), None);
    assert_eq!(sent(&mut hub), Vec::<u8>::new());
}

#[test]
fn guesser_learns_the_result() {
    let mut hub = connected();
    assert_eq!(
        guessing("tree")
            .process_action(&mut hub, GameAction::GuessResult(Some(String::from("tree")))),
        Some(Role::Guesser(Guesser::Done(true, String::from("tree"))))
    );
    assert_eq!(
        guessing("book").process_action(&mut hub, GameAction::GuessResult(None)),
        Some(Role::Guesser(guessing("")))
    );
    assert_eq!(
        guessing("bo").process_action(&mut hub, GameAction::GameOver(String::from("tree"))),
        Some(Role::Guesser(Guesser::Done(false, String::from("tree"))))
    );
}

#[test]
fn finished_guesser_ignores_everything_but_a_swap() {
    let mut hub = connected();
    let done = Guesser::Done(true, String::from("tree"));
    for action in [
        GameAction::TypeLetter('y'),
        GameAction::Enter,
        GameAction::SetWordSkeleton(String::from("__")),
        GameAction::SetTimeRemaining(3),
        GameAction::GameOver(String::from("x")),
    ] {
        assert_eq!(done.process_action(&mut hub, action), None);
    }
    assert_eq!(sent(&mut hub), Vec::<u8>::new());
    assert_eq!(posted(&mut hub), vec![]);
}

#[test]
fn timer_monotonicity() {
    let mut hub = connected();
    let mut role = Role::Drawer(drawing(0, 5));
    let mut last = 5;
    for step in 0..40 {
        let action = if step % 3 == 0 { GameAction::Tick } else { GameAction::Update(400_000) };
        if let Some(next) = role.process_action(&mut hub, action) {
            role = next;
        }
        match &role {
            Role::Drawer(Drawer::Drawing(_, _, remaining)) => {
                assert!(*remaining <= last);
                last = *remaining;
            }
            Role::Drawer(Drawer::Done(false)) => {}
            other => panic!("unexpected: {:?}", other),
        }
    }
    assert_eq!(role, Role::Drawer(Drawer::Done(false)));
}

#[test]
fn ticks_need_a_full_second_of_updates() {
    let mut hub = connected();
    let mut role = Role::Drawer(drawing(0, 50));
    let mut total: u64 = 0;
    let mut ticks: u64 = 0;
    for dt in [300_000u64, 300_000, 300_000, 100_000, 1, 999_999, 1, 1, 2_500_000, 10] {
        total += dt;
        if let Some(next) = role.process_action(&mut hub, GameAction::Update(dt)) {
            role = next;
        }
        ticks += posted(&mut hub).len() as u64;
        assert!(ticks * (TICK_PERIOD + 1) <= total);
    }
    assert_eq!(ticks, 3);
}

#[test]
fn waiting_player_scribbles_locally() {
    let mut hub = connected();
    let waiting = WaitingPlayer::new(String::from("127.0.0.1:4912"));
    assert_eq!(waiting.address(), "127.0.0.1:4912");
    assert_eq!(waiting.process_action(&mut hub, GameAction::LeftClick(1, 2)), None);
    assert_eq!(waiting.process_action(&mut hub, GameAction::RightClick(3, 4)), None);
    assert_eq!(waiting.process_action(&mut hub, GameAction::LeftClickDrag(1, 2, 3, 4)), None);
    assert_eq!(waiting.process_action(&mut hub, GameAction::RightClickDrag(5, 6, 7, 8)), None);
    assert_eq!(waiting.process_action(&mut hub, GameAction::SwapRoles), None);
    assert_eq!(waiting.process_action(&mut hub, GameAction::TypeNumber(1)), None);
    assert_eq!(
        posted(&mut hub),
        vec![
            GameAction::Draw(1, 2),
            GameAction::Erase(3, 4),
            GameAction::DrawLine(1, 2, 3, 4),
            GameAction::EraseLine(5, 6, 7, 8),
        ]
    );
    assert_eq!(sent(&mut hub), Vec::<u8>::new());
}

#[test]
fn roles_without_connection_send_nothing() {
    let mut hub = Communications::new(None);
    assert_eq!(
        picking().process_action(&mut hub, GameAction::TypeNumber(1)),
        Some(Role::Drawer(Drawer::Drawing(String::from("tree"), 0, 100)))
    );
    assert_eq!(drawing(0, 5).process_action(&mut hub, GameAction::LeftClick(1, 1)), None);
    assert_eq!(posted(&mut hub), vec![GameAction::Draw(1, 1)]);
    assert_eq!(hub.take_outgoing(), Vec::<u8>::new());
    assert!(!hub.is_connected());
}

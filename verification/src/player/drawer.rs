//! The drawing role: it picks one of three words, draws while the clock
//! runs, and judges the guesses that arrive.

use crate::caption::{
    captions_view, center_text, centered, decimal, plain, push_decimal, Caption, CaptionView,
};
use crate::communications::{Communications, CommunicationsView};
use crate::game_action::{ActionView, GameAction};
use crate::message::{GameMessage, MessageView};
use crate::player::guesser::{Guesser, GuesserView};
use crate::player::{role_view, Player, Role, RoleView, DRAWING_TIME, TICK_PERIOD};
use rand::seq::SliceRandom;
use vstd::prelude::*;
use vstd::string::*;

verus! {

#[derive(Debug, Clone, PartialEq, Eq)]
pub enum Drawer {
    /// The words to choose from.
    PickingWord(Vec<String>),
    /// The word, the microseconds gone by since the last tick, and the
    /// seconds that remain.
    Drawing(String, u64, u32),
    /// Whether the word was guessed in time.
    Done(bool),
}

/// The mathematical content of a [`Drawer`].
pub enum DrawerView {
    PickingWord(Seq<Seq<char>>),
    Drawing(Seq<char>, u64, u32),
    Done(bool),
}

impl View for Drawer {
    type V = DrawerView;

    open spec fn view(&self) -> DrawerView {
        match *self {
            Drawer::PickingWord(words) => DrawerView::PickingWord(
                words@.map_values(|w: String| w@),
            ),
            Drawer::Drawing(word, elapsed, remaining) => DrawerView::Drawing(
                word@,
                elapsed,
                remaining,
            ),
            Drawer::Done(won) => DrawerView::Done(won),
        }
    }
}

/// The number of words that a drawer chooses from.
pub const CANDIDATES: usize = 3;

/// The character that stands for a hidden letter.
pub const MASK: char = '_';

/// The words of the game.
pub open spec fn word_list() -> Seq<Seq<char>> {
    seq![
        "bike"@,
        "snowman"@,
        "tree"@,
        "flower"@,
        "basketball"@,
        "mountain"@,
        "turtle"@,
        "book"@,
    ]
}

/// No word occurs twice.
pub open spec fn distinct(words: Seq<Seq<char>>) -> bool {
    forall|i: int, j: int| 0 <= i < j < words.len() ==> words[i] != words[j]
}

/// What a guesser is shown of a word: its spaces, and a mask for every
/// other character.
pub open spec fn skeleton_of(word: Seq<char>) -> Seq<char> {
    Seq::new(
        word.len(),
        |i: int|
            if word[i] == ' ' {
                ' '
            } else {
                MASK
            },
    )
}

/// The line that offers the word with the given number: the number in
/// square brackets, a space, and the word.
pub open spec fn choice_text(number: nat, word: Seq<char>) -> Seq<char> {
    seq!['['] + decimal(number) + "] "@ + word
}

/// The baseline of the `i`-th offered word: fifty pixels below the one
/// before, as far as positions go.
pub open spec fn choice_row(i: int) -> u32 {
    if 100 + 50 * i <= u32::MAX {
        (100 + 50 * i) as u32
    } else {
        u32::MAX
    }
}

impl DrawerView {
    /// What a drawer shows: the words to pick from, numbered from one; or
    /// the word that it draws, and the seconds that remain; or how the
    /// round ended, and the offer to play again.
    pub open spec fn captions(self) -> Seq<CaptionView> {
        match self {
            DrawerView::PickingWord(words) => Seq::new(
                words.len() + 1,
                |k: int|
                    if k == 0 {
                        centered("Pick Word"@, 400, 50)
                    } else {
                        centered(choice_text(k as nat, words[k - 1]), 400, choice_row(k - 1))
                    },
            ),
            DrawerView::Drawing(word, _, time) => seq![
                centered("Drawing '"@ + word + "'"@, 400, 50),
                plain(decimal(time as nat), 10, 30),
            ],
            DrawerView::Done(won) => seq![
                centered(
                    if won {
                        "You Win"@
                    } else {
                        "Time's Up"@
                    },
                    400,
                    150,
                ),
                centered("[y] Play Again?"@, 400, 250),
            ],
        }
    }

    /// Three distinct words to pick from; while drawing, no more than one
    /// tick period gone by since the last tick.
    pub open spec fn wf(self) -> bool {
        match self {
            DrawerView::PickingWord(words) => words.len() == CANDIDATES && distinct(words),
            DrawerView::Drawing(_, elapsed, _) => elapsed <= TICK_PERIOD,
            DrawerView::Done(_) => true,
        }
    }

    /// A drawer at the start of a round: three distinct words of the
    /// game's list to pick from.
    pub open spec fn is_fresh(self) -> bool {
        self matches DrawerView::PickingWord(words) && words.len() == CANDIDATES && distinct(
            words,
        ) && forall|i: int| 0 <= i < words.len() ==> word_list().contains(#[trigger] words[i])
    }

    /// The role that an action leads to; `None` where the action changes nothing.
    pub open spec fn next(self, action: ActionView) -> Option<RoleView> {
        if action is SwapRoles {
            Some(RoleView::Guesser(GuesserView::WaitingForDrawer))
        } else {
            match self {
                DrawerView::PickingWord(words) => match action {
                    ActionView::TypeNumber(n) => if 1 <= n <= words.len() {
                        Some(RoleView::Drawer(DrawerView::Drawing(words[n - 1], 0, DRAWING_TIME)))
                    } else {
                        None
                    },
                    _ => None,
                },
                DrawerView::Drawing(word, elapsed, remaining) => match action {
                    ActionView::Update(dt) => if elapsed + dt > TICK_PERIOD {
                        Some(RoleView::Drawer(DrawerView::Drawing(word, 0, remaining)))
                    } else {
                        Some(
                            RoleView::Drawer(
                                DrawerView::Drawing(word, (elapsed + dt) as u64, remaining),
                            ),
                        )
                    },
                    ActionView::Tick => if remaining > 1 {
                        Some(
                            RoleView::Drawer(DrawerView::Drawing(word, 0, (remaining - 1) as u32)),
                        )
                    } else {
                        Some(RoleView::Drawer(DrawerView::Done(false)))
                    },
                    ActionView::Guess(guess) => if guess == word {
                        Some(RoleView::Drawer(DrawerView::Done(true)))
                    } else {
                        None
                    },
                    _ => None,
                },
                DrawerView::Done(_) => None,
            }
        }
    }

    /// The hub after the reaction to an action.
    pub open spec fn hub_after(self, hub: CommunicationsView, action: ActionView) -> CommunicationsView {
        match self {
            DrawerView::PickingWord(words) => match action {
                ActionView::TypeNumber(n) => if 1 <= n <= words.len() {
                    hub.send_message(MessageView::SetWordSkeleton(skeleton_of(words[n - 1])))
                } else {
                    hub
                },
                _ => hub,
            },
            DrawerView::Drawing(word, elapsed, remaining) => match action {
                ActionView::LeftClick(x, y) => hub.send_message(MessageView::Draw(x, y)).send_action(
                    ActionView::Draw(x, y),
                ),
                ActionView::RightClick(x, y) => hub.send_message(
                    MessageView::Erase(x, y),
                ).send_action(ActionView::Erase(x, y)),
                ActionView::Update(dt) => if elapsed + dt > TICK_PERIOD {
                    hub.send_action(ActionView::Tick)
                } else {
                    hub
                },
                ActionView::Tick => if remaining > 1 {
                    hub.send_message(MessageView::SetTimeRemaining((remaining - 1) as u32))
                } else {
                    hub.send_message(MessageView::SetTimeRemaining(0)).send_message(
                        MessageView::GameOver(word),
                    )
                },
                ActionView::Guess(guess) => if guess == word {
                    hub.send_message(MessageView::GuessResult(Some(word)))
                } else {
                    hub.send_message(MessageView::GuessResult(None))
                },
                _ => hub,
            },
            DrawerView::Done(_) => match action {
                ActionView::TypeLetter(c) => if c == 'y' {
                    hub.send_action(ActionView::SwapRoles).send_message(MessageView::SwapRoles)
                } else {
                    hub
                },
                _ => hub,
            },
        }
    }

    /// The role after an action.
    pub open spec fn after(self, action: ActionView) -> RoleView {
        match self.next(action) {
            Some(role) => role,
            None => RoleView::Drawer(self),
        }
    }

    /// Whether an update of `dt` microseconds completes a tick period.
    pub open spec fn tick_due(self, dt: u64) -> bool {
        self matches DrawerView::Drawing(_, elapsed, _) && elapsed + dt > TICK_PERIOD
    }

    /// The seconds that remain, while drawing.
    pub open spec fn remaining(self) -> Option<u32> {
        match self {
            DrawerView::Drawing(_, _, remaining) => Some(remaining),
            _ => None,
        }
    }
}

/// A skeleton is as long as its word; it has a space wherever the word has
/// one, and the mask everywhere else.
pub proof fn lemma_skeleton_shape(word: Seq<char>)
    ensures
        skeleton_of(word).len() == word.len(),
        forall|i: int|
            0 <= i < word.len() ==> (#[trigger] skeleton_of(word)[i] == ' ' <==> word[i] == ' '),
        forall|i: int|
            0 <= i < word.len() && word[i] != ' ' ==> #[trigger] skeleton_of(word)[i] == MASK,
{
}

/// The skeleton of a word: as long as the word, with every space kept and
/// every other character masked.
pub fn make_skeleton(word: &str) -> (skeleton: String)
    ensures
        skeleton@ == skeleton_of(word@),
        skeleton@.len() == word@.len(),
        forall|i: int|
            0 <= i < word@.len() ==> (skeleton@[i] == ' ' <==> word@[i] == ' ') && (word@[i] != ' '
                ==> skeleton@[i] == MASK),
{
    let n = word.unicode_len();
    let mut skeleton = String::new();
    let mut i: usize = 0;
    while i < n
        invariant
            n == word@.len(),
            i <= n,
            skeleton@ == skeleton_of(word@).subrange(0, i as int),
        decreases n - i,
    {
        let c = word.get_char(i);
        skeleton.push(
            match c {
                ' ' => ' ',
                _ => MASK,
            },
        );
        i += 1;
        assert(skeleton@ =~= skeleton_of(word@).subrange(0, i as int));
    }
    assert(skeleton@ =~= skeleton_of(word@));
    skeleton
}

/// The words of the game, as the program holds them.
fn words() -> (list: Vec<&'static str>)
    ensures
        list@.len() == word_list().len(),
        forall|i: int| 0 <= i < list@.len() ==> (#[trigger] list@[i])@ == word_list()[i],
{
    vec!["bike", "snowman", "tree", "flower", "basketball", "mountain", "turtle", "book"]
}

/// The words of the game differ from one another.
proof fn lemma_word_list_distinct()
    ensures
        word_list().len() == 8,
        distinct(word_list()),
{
    reveal_strlit("bike");
    reveal_strlit("snowman");
    reveal_strlit("tree");
    reveal_strlit("flower");
    reveal_strlit("basketball");
    reveal_strlit("mountain");
    reveal_strlit("turtle");
    reveal_strlit("book");
    let w = word_list();
    assert(w[0].len() == 4 && w[0][0] == 'b' && w[0][1] == 'i');
    assert(w[1].len() == 7);
    assert(w[2].len() == 4 && w[2][0] == 't');
    assert(w[3].len() == 6 && w[3][0] == 'f');
    assert(w[4].len() == 10);
    assert(w[5].len() == 8);
    assert(w[6].len() == 6 && w[6][0] == 't');
    assert(w[7].len() == 4 && w[7][0] == 'b' && w[7][1] == 'o');
}

/// Whether `chosen` takes its words from pairwise different places of `list`.
pub open spec fn picked_from(list: Seq<Seq<char>>, chosen: Seq<Seq<char>>) -> bool {
    exists|places: Seq<int>| #[trigger] places_of(list, chosen, places)
}

/// Whether `places` names, for every chosen word, the place in `list` that
/// it was taken from, no place twice.
pub open spec fn places_of(list: Seq<Seq<char>>, chosen: Seq<Seq<char>>, places: Seq<int>) -> bool {
    &&& places.len() == chosen.len()
    &&& forall|i: int|
        0 <= i < places.len() ==> 0 <= #[trigger] places[i] < list.len() && chosen[i]
            == list[places[i]]
    &&& forall|i: int, j: int| 0 <= i < j < places.len() ==> places[i] != places[j]
}

/// `SliceRandom::choose_multiple` on the thread's own random generator:
/// picks `amount` of the given words, or all of them if there are fewer,
/// each from a different place of the list, in an order of its choosing.
#[verifier::external_body]
fn choose_multiple(list: &Vec<&'static str>, amount: usize) -> (chosen: Vec<String>)
    ensures
        chosen@.len() == if amount <= list@.len() { amount as int } else { list@.len() as int },
        picked_from(list@.map_values(|w: &'static str| w@), chosen@.map_values(|w: String| w@)),
{
    list.choose_multiple(&mut rand::thread_rng(), amount).map(|word| String::from(*word)).collect()
}

/// Words taken from different places of a list without repetition are
/// themselves without repetition.
proof fn lemma_picked_distinct(list: Seq<Seq<char>>, chosen: Seq<Seq<char>>)
    requires
        distinct(list),
        picked_from(list, chosen),
    ensures
        distinct(chosen),
        forall|i: int| 0 <= i < chosen.len() ==> list.contains(#[trigger] chosen[i]),
{
    let places = choose|places: Seq<int>| #[trigger] places_of(list, chosen, places);
    assert forall|i: int| 0 <= i < chosen.len() implies list.contains(#[trigger] chosen[i]) by {
        assert(chosen[i] == list[places[i]]);
    }
    assert forall|i: int, j: int| 0 <= i < j < chosen.len() implies chosen[i] != chosen[j] by {
        assert(chosen[i] == list[places[i]]);
        assert(chosen[j] == list[places[j]]);
        if places[i] < places[j] {
        } else {
            assert(places[j] < places[i]);
        }
    }
}

impl Drawer {
    /// A drawer at the start of a round, with three words picked at random.
    pub fn new() -> (drawer: Self)
        ensures
            drawer@.is_fresh(),
            drawer@.wf(),
    {
        let list = words();
        let chosen = choose_multiple(&list, CANDIDATES);
        proof {
            lemma_word_list_distinct();
            assert(list@.map_values(|w: &'static str| w@) =~= word_list());
            lemma_picked_distinct(word_list(), chosen@.map_values(|w: String| w@));
        }
        Drawer::PickingWord(chosen)
    }
}

impl Player for Drawer {
    fn render(&self) -> (captions: Vec<Caption>)
        ensures
            captions_view(captions@) == self@.captions(),
    {
        let mut captions: Vec<Caption> = Vec::new();
        match self {
            Drawer::PickingWord(words) => {
                captions.push(center_text("Pick Word".to_owned(), 400, 50));
                let mut i: usize = 0;
                while i < words.len()
                    invariant
                        i <= words.len(),
                        self@ == DrawerView::PickingWord(words@.map_values(|w: String| w@)),
                        captions_view(captions@) == self@.captions().subrange(0, i + 1),
                    decreases words.len() - i,
                {
                    let mut text = String::new();
                    text.push('[');
                    push_decimal(&mut text, i as u64 + 1);
                    text.append("] ");
                    text.append(words[i].as_str());
                    let y: u32 = if i <= 85899343 {
                        (100 + 50 * i) as u32
                    } else {
                        u32::MAX
                    };
                    assert(text@ =~= choice_text((i + 1) as nat, words@[i as int]@));
                    let ghost shown = captions_view(captions@);
                    let caption = center_text(text, 400, y);
                    assert(y == choice_row(i as int));
                    assert(caption@ == self@.captions()[i + 1]);
                    captions.push(caption);
                    i += 1;
                    assert(captions_view(captions@) =~= shown.push(caption@));
                    assert(captions_view(captions@) =~= self@.captions().subrange(0, i + 1));
                }
                assert(self@.captions().subrange(0, i + 1) =~= self@.captions());
            },
            Drawer::Drawing(word, _dt, time) => {
                let mut title = "Drawing '".to_owned();
                title.append(word.as_str());
                title.append("'");
                captions.push(center_text(title, 400, 50));
                let mut clock = String::new();
                push_decimal(&mut clock, *time as u64);
                assert(clock@ =~= decimal(*time as nat));
                captions.push(Caption { text: clock, x: 10, y: 30, centered: false });
                assert(captions_view(captions@) =~= self@.captions());
            },
            Drawer::Done(won) => {
                if *won {
                    captions.push(center_text("You Win".to_owned(), 400, 150));
                } else {
                    captions.push(center_text("Time's Up".to_owned(), 400, 150));
                }
                captions.push(center_text("[y] Play Again?".to_owned(), 400, 250));
                assert(captions_view(captions@) =~= self@.captions());
            },
        }
        captions
    }

    /// A swap of roles, in whatever phase, makes the drawer a guesser that
    /// waits for a word. Every other action moves the drawer, and uses the
    /// hub, as [`DrawerView::next`] and [`DrawerView::hub_after`] say.
    fn process_action(&self, communications: &mut Communications, action: GameAction) -> (next:
        Option<Role>)
        ensures
            role_view(next) == self@.next(action@),
            final(communications)@ == self@.hub_after(old(communications)@, action@),
    {
        if let GameAction::SwapRoles = action {
            return Some(Role::Guesser(Guesser::new()));
        }
        match self {
            Drawer::PickingWord(words) => match action {
                GameAction::TypeNumber(n) => {
                    let n = n as usize;
                    if n > 0 && n <= words.len() {
                        let word = words[n - 1].clone();
                        let skeleton = make_skeleton(word.as_str());
                        communications.send_message(GameMessage::SetWordSkeleton(skeleton));
                        Some(Role::Drawer(Drawer::Drawing(word, 0, DRAWING_TIME)))
                    } else {
                        None
                    }
                },
                _ => None,
            },
            Drawer::Drawing(word, cdt, time) => match action {
                GameAction::LeftClick(x, y) => {
                    communications.send_message(GameMessage::Draw(x, y));
                    communications.send_action(GameAction::Draw(x, y));
                    None
                },
                GameAction::RightClick(x, y) => {
                    communications.send_message(GameMessage::Erase(x, y));
                    communications.send_action(GameAction::Erase(x, y));
                    None
                },
                GameAction::Update(dt) => {
                    if *cdt > TICK_PERIOD || dt > TICK_PERIOD - *cdt {
                        communications.send_action(GameAction::Tick);
                        Some(Role::Drawer(Drawer::Drawing(word.clone(), 0, *time)))
                    } else {
                        Some(Role::Drawer(Drawer::Drawing(word.clone(), *cdt + dt, *time)))
                    }
                },
                GameAction::Tick => {
                    let time: u32 = if *time > 0 { *time - 1 } else { 0 };
                    communications.send_message(GameMessage::SetTimeRemaining(time));
                    if time > 0 {
                        Some(Role::Drawer(Drawer::Drawing(word.clone(), 0, time)))
                    } else {
                        communications.send_message(GameMessage::GameOver(word.clone()));
                        Some(Role::Drawer(Drawer::Done(false)))
                    }
                },
                GameAction::Guess(guess) => {
                    if guess == *word {
                        communications.send_message(GameMessage::GuessResult(Some(word.clone())));
                        Some(Role::Drawer(Drawer::Done(true)))
                    } else {
                        communications.send_message(GameMessage::GuessResult(None));
                        None
                    }
                },
                _ => None,
            },
            Drawer::Done(_) => match action {
                GameAction::TypeLetter(c) => {
                    if c == 'y' {
                        communications.send_action(GameAction::SwapRoles);
                        communications.send_message(GameMessage::SwapRoles);
                    }
                    None
                },
                _ => None,
            },
        }
    }
}

/// A drawer posts a tick exactly when an update completes a tick period.
pub proof fn lemma_tick_posted_iff_due(d: DrawerView, hub: CommunicationsView, action: ActionView)
    ensures
        d.hub_after(hub, action).actions == hub.actions.push(ActionView::Tick) <==> (
        action matches ActionView::Update(dt) && d.tick_due(dt)),
{
    let after = d.hub_after(hub, action).actions;
    let ticked = hub.actions.push(ActionView::Tick);
    assert(ticked.len() == hub.actions.len() + 1);
    assert(ticked.last() == ActionView::Tick);
    if after == ticked {
        if after.len() == hub.actions.len() + 1 {
            assert(after.last() == ActionView::Tick);
        }
    }
}

/// The sum of a sequence of time spans.
pub open spec fn total(dts: Seq<u64>) -> int
    decreases dts.len(),
{
    if dts.len() == 0 {
        0
    } else {
        total(dts.drop_last()) + dts.last()
    }
}

/// The drawer after a run of updates and nothing else.
pub open spec fn after_updates(d: DrawerView, dts: Seq<u64>) -> DrawerView
    decreases dts.len(),
{
    if dts.len() == 0 {
        d
    } else {
        match after_updates(d, dts.drop_last()).after(ActionView::Update(dts.last())) {
            RoleView::Drawer(next) => next,
            _ => d,
        }
    }
}

/// The number of ticks that a drawer posts during a run of updates.
pub open spec fn ticks_during(d: DrawerView, dts: Seq<u64>) -> nat
    decreases dts.len(),
{
    if dts.len() == 0 {
        0
    } else {
        let before = ticks_during(d, dts.drop_last());
        if after_updates(d, dts.drop_last()).tick_due(dts.last()) {
            before + 1
        } else {
            before
        }
    }
}

/// Ticks take time: from the start of a drawing phase, every tick posted
/// stands for more than one tick period of updates, and what the clock
/// shows besides was accumulated too. In particular no tick is posted
/// before the updates add up to more than one tick period.
pub proof fn lemma_ticks_take_time(word: Seq<char>, remaining: u32, dts: Seq<u64>)
    ensures
        after_updates(DrawerView::Drawing(word, 0, remaining), dts) matches DrawerView::Drawing(
            w,
            elapsed,
            r,
        ) && w == word && r == remaining && elapsed <= TICK_PERIOD && ticks_during(
            DrawerView::Drawing(word, 0, remaining),
            dts,
        ) * (TICK_PERIOD + 1) + elapsed <= total(dts),
    decreases dts.len(),
{
    if dts.len() > 0 {
        lemma_ticks_take_time(word, remaining, dts.drop_last());
        let start = DrawerView::Drawing(word, 0, remaining);
        let before = after_updates(start, dts.drop_last());
        let n = ticks_during(start, dts.drop_last());
        let dt = dts.last();
        assert((n + 1) * (TICK_PERIOD + 1) == n * (TICK_PERIOD + 1) + (TICK_PERIOD + 1))
            by (nonlinear_arith);
    }
}

} // verus!

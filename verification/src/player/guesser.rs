//! The guessing role: it waits for a word's skeleton, types a guess of the
//! skeleton's length, submits it, and learns how the round ended.

use crate::caption::{
    captions_view, center_text, centered, decimal, overlay, overlay_guess, plain, push_decimal,
    Caption, CaptionView,
};
use crate::communications::{Communications, CommunicationsView};
use crate::game_action::{ActionView, GameAction};
use crate::message::{GameMessage, MessageView};
use crate::player::drawer::Drawer;
use crate::player::{role_view, Player, Role, RoleView, DRAWING_TIME};
use vstd::prelude::*;
use vstd::string::*;

verus! {

#[derive(Debug, Clone, PartialEq, Eq)]
pub enum Guesser {
    WaitingForDrawer,
    /// The seconds that remain, the skeleton of the word, and the guess typed so far.
    Guessing(u32, String, String),
    /// Whether the word was guessed, and the word.
    Done(bool, String),
}

/// The mathematical content of a [`Guesser`].
pub enum GuesserView {
    WaitingForDrawer,
    Guessing(u32, Seq<char>, Seq<char>),
    Done(bool, Seq<char>),
}

impl View for Guesser {
    type V = GuesserView;

    open spec fn view(&self) -> GuesserView {
        match *self {
            Guesser::WaitingForDrawer => GuesserView::WaitingForDrawer,
            Guesser::Guessing(t, skeleton, guess) => GuesserView::Guessing(t, skeleton@, guess@),
            Guesser::Done(won, word) => GuesserView::Done(won, word@),
        }
    }
}

impl GuesserView {
    /// The guess typed so far is no longer than the skeleton.
    pub open spec fn wf(self) -> bool {
        self matches GuesserView::Guessing(_, skeleton, guess) ==> guess.len() <= skeleton.len()
    }

    /// The phase that an action other than a swap of roles leads to;
    /// `None` where the action changes nothing.
    pub open spec fn next(self, action: ActionView) -> Option<GuesserView> {
        match self {
            GuesserView::WaitingForDrawer => match action {
                ActionView::SetWordSkeleton(skeleton) => Some(
                    GuesserView::Guessing(DRAWING_TIME, skeleton, Seq::empty()),
                ),
                _ => None,
            },
            GuesserView::Guessing(t, skeleton, guess) => match action {
                ActionView::SetTimeRemaining(time) => Some(
                    GuesserView::Guessing(time, skeleton, guess),
                ),
                ActionView::GameOver(word) => Some(GuesserView::Done(false, word)),
                ActionView::TypeLetter(c) => if guess.len() < skeleton.len() {
                    Some(GuesserView::Guessing(t, skeleton, guess.push(c)))
                } else {
                    None
                },
                ActionView::DeleteLetter => if guess.len() > 0 {
                    Some(GuesserView::Guessing(t, skeleton, guess.drop_last()))
                } else {
                    None
                },
                ActionView::GuessResult(Some(word)) => Some(GuesserView::Done(true, word)),
                ActionView::GuessResult(None) => Some(
                    GuesserView::Guessing(t, skeleton, Seq::empty()),
                ),
                _ => None,
            },
            GuesserView::Done(..) => None,
        }
    }

    /// The hub after the reaction to an action: a complete guess is sent
    /// on `Enter`, and nothing else is ever sent or posted.
    pub open spec fn hub_after(self, hub: CommunicationsView, action: ActionView) -> CommunicationsView {
        match (self, action) {
            (GuesserView::Guessing(_, skeleton, guess), ActionView::Enter) => if guess.len()
                == skeleton.len() {
                hub.send_message(MessageView::Guess(guess))
            } else {
                hub
            },
            _ => hub,
        }
    }

    /// The phase after an action other than a swap of roles.
    pub open spec fn after(self, action: ActionView) -> GuesserView {
        match self.next(action) {
            Some(phase) => phase,
            None => self,
        }
    }

    /// What a guesser shows: that it waits; or the skeleton with the
    /// guess written over it, and the seconds that remain; or how the
    /// round ended, and the word in quotes.
    pub open spec fn captions(self) -> Seq<CaptionView> {
        match self {
            GuesserView::WaitingForDrawer => seq![centered("Waiting for Drawer"@, 400, 50)],
            GuesserView::Guessing(time, skeleton, guess) => seq![
                centered(overlay(skeleton, guess), 400, 50),
                plain(decimal(time as nat), 10, 30),
            ],
            GuesserView::Done(won, word) => seq![
                centered(
                    if won {
                        "You Win"@
                    } else {
                        "Time's Up"@
                    },
                    400,
                    150,
                ),
                centered("'"@ + word + "'"@, 400, 250),
            ],
        }
    }

    /// The seconds that remain, while guessing.
    pub open spec fn remaining(self) -> Option<u32> {
        match self {
            GuesserView::Guessing(t, _, _) => Some(t),
            _ => None,
        }
    }
}

/// The new role as a guesser's phase, if there is one.
pub open spec fn guesser_role(next: Option<GuesserView>) -> Option<RoleView> {
    match next {
        Some(phase) => Some(RoleView::Guesser(phase)),
        None => None,
    }
}

impl Guesser {
    /// A guesser that waits for the drawer to pick a word.
    pub fn new() -> (guesser: Self)
        ensures
            guesser@ == GuesserView::WaitingForDrawer,
    {
        Guesser::WaitingForDrawer
    }
}

impl Player for Guesser {
    fn render(&self) -> (captions: Vec<Caption>)
        ensures
            captions_view(captions@) == self@.captions(),
    {
        let mut captions: Vec<Caption> = Vec::new();
        match self {
            Guesser::WaitingForDrawer => {
                captions.push(center_text("Waiting for Drawer".to_owned(), 400, 50));
            },
            Guesser::Guessing(time, skeleton, guess) => {
                captions.push(
                    center_text(overlay_guess(skeleton.as_str(), guess.as_str()), 400, 50),
                );
                let mut clock = String::new();
                push_decimal(&mut clock, *time as u64);
                assert(clock@ =~= decimal(*time as nat));
                captions.push(Caption { text: clock, x: 10, y: 30, centered: false });
            },
            Guesser::Done(did_win, word) => {
                if *did_win {
                    captions.push(center_text("You Win".to_owned(), 400, 150));
                } else {
                    captions.push(center_text("Time's Up".to_owned(), 400, 150));
                }
                let mut quoted = "'".to_owned();
                quoted.append(word.as_str());
                quoted.append("'");
                captions.push(center_text(quoted, 400, 250));
            },
        }
        assert(captions_view(captions@) =~= self@.captions());
        captions
    }

    /// A swap of roles, in whatever phase, makes the guesser a drawer with
    /// a fresh choice of words. Every other action moves the guesser as
    /// [`GuesserView::next`] says.
    fn process_action(&self, communications: &mut Communications, action: GameAction) -> (next:
        Option<Role>)
        ensures
            action@ is SwapRoles ==> (next matches Some(Role::Drawer(drawer)) && drawer@.is_fresh()),
            !(action@ is SwapRoles) ==> role_view(next) == guesser_role(self@.next(action@)),
            final(communications)@ == self@.hub_after(old(communications)@, action@),
    {
        if let GameAction::SwapRoles = action {
            return Some(Role::Drawer(Drawer::new()));
        }
        match self {
            Guesser::WaitingForDrawer => match action {
                GameAction::SetWordSkeleton(skeleton) => Some(
                    Role::Guesser(Guesser::Guessing(DRAWING_TIME, skeleton, String::new())),
                ),
                _ => None,
            },
            Guesser::Guessing(t, skeleton, guess) => match action {
                GameAction::SetTimeRemaining(time) => Some(
                    Role::Guesser(Guesser::Guessing(time, skeleton.clone(), guess.clone())),
                ),
                GameAction::GameOver(word) => Some(Role::Guesser(Guesser::Done(false, word))),
                GameAction::TypeLetter(c) => {
                    if guess.as_str().unicode_len() < skeleton.as_str().unicode_len() {
                        let mut new_guess = guess.clone();
                        new_guess.push(c);
                        Some(Role::Guesser(Guesser::Guessing(*t, skeleton.clone(), new_guess)))
                    } else {
                        None
                    }
                },
                GameAction::DeleteLetter => {
                    if guess.as_str().unicode_len() > 0 {
                        let mut new_guess = guess.clone();
                        new_guess.pop();
                        Some(Role::Guesser(Guesser::Guessing(*t, skeleton.clone(), new_guess)))
                    } else {
                        None
                    }
                },
                GameAction::Enter => {
                    if guess.as_str().unicode_len() == skeleton.as_str().unicode_len() {
                        communications.send_message(GameMessage::Guess(guess.clone()));
                    }
                    None
                },
                GameAction::GuessResult(res) => {
                    if let Some(word) = res {
                        Some(Role::Guesser(Guesser::Done(true, word)))
                    } else {
                        Some(Role::Guesser(Guesser::Guessing(*t, skeleton.clone(), String::new())))
                    }
                },
                _ => None,
            },
            _ => None,
        }
    }
}

} // verus!

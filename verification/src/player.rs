//! The roles of the game and what they have in common.

pub mod drawer;
pub mod guesser;
pub mod waiting_player;

use crate::caption::{captions_view, Caption, CaptionView};
use crate::communications::{Communications, CommunicationsView};
use crate::game_action::{ActionView, GameAction};
use crate::player::drawer::{Drawer, DrawerView};
use crate::player::guesser::{Guesser, GuesserView};
use crate::player::waiting_player::{waiting_captions, waiting_hub_after, WaitingPlayer};
use vstd::prelude::*;

verus! {

/// The seconds that a drawer has for one word.
pub const DRAWING_TIME: u32 = 100;

/// The microseconds of accumulated updates after which the clock ticks.
pub const TICK_PERIOD: u64 = 1_000_000;

/// The role that a peer plays at the moment.
#[derive(Debug, Clone, PartialEq, Eq)]
pub enum Role {
    WaitingForConnection(WaitingPlayer),
    Drawer(Drawer),
    Guesser(Guesser),
}

/// The mathematical content of a [`Role`].
pub enum RoleView {
    /// Waiting, with the address that the peer is awaited at or looked for.
    WaitingForConnection(Seq<char>),
    Drawer(DrawerView),
    Guesser(GuesserView),
}

impl View for Role {
    type V = RoleView;

    open spec fn view(&self) -> RoleView {
        match *self {
            Role::WaitingForConnection(w) => RoleView::WaitingForConnection(w@),
            Role::Drawer(d) => RoleView::Drawer(d@),
            Role::Guesser(g) => RoleView::Guesser(g@),
        }
    }
}

/// The content of a new role, if there is one.
pub open spec fn role_view(next: Option<Role>) -> Option<RoleView> {
    match next {
        Some(role) => Some(role@),
        None => None,
    }
}

/// What every role can do: react to an action. The reaction may write
/// messages and post actions through the hub, and may end in a new role;
/// `None` says that the role stays as it is.
pub trait Player {
    /// The lines of text that show the role's state.
    fn render(&self) -> (captions: Vec<Caption>);

    fn process_action(&self, communications: &mut Communications, action: GameAction) -> (next:
        Option<Role>);
}

impl RoleView {
    /// What each role promises of its own state.
    pub open spec fn wf(self) -> bool {
        match self {
            RoleView::WaitingForConnection(_) => true,
            RoleView::Drawer(d) => d.wf(),
            RoleView::Guesser(g) => g.wf(),
        }
    }

    /// Whether `after` is a role that `action` may lead to. Every
    /// reaction is determined by role and action, but for the words that a
    /// guesser is given to pick from when it becomes the drawer.
    pub open spec fn steps_to(self, action: ActionView, after: RoleView) -> bool {
        match self {
            RoleView::WaitingForConnection(_) => after == self,
            RoleView::Drawer(d) => after == d.after(action),
            RoleView::Guesser(g) => if action is SwapRoles {
                after matches RoleView::Drawer(d) && d.is_fresh()
            } else {
                after == RoleView::Guesser(g.after(action))
            },
        }
    }

    /// The hub after the role's reaction to an action.
    pub open spec fn hub_after(self, hub: CommunicationsView, action: ActionView) -> CommunicationsView {
        match self {
            RoleView::WaitingForConnection(_) => waiting_hub_after(hub, action),
            RoleView::Drawer(d) => d.hub_after(hub, action),
            RoleView::Guesser(g) => g.hub_after(hub, action),
        }
    }

    /// The lines of text that show the role's state.
    pub open spec fn captions(self) -> Seq<CaptionView> {
        match self {
            RoleView::WaitingForConnection(address) => waiting_captions(address),
            RoleView::Drawer(d) => d.captions(),
            RoleView::Guesser(g) => g.captions(),
        }
    }

    /// The seconds that remain, while a word is drawn or guessed.
    pub open spec fn remaining(self) -> Option<u32> {
        match self {
            RoleView::WaitingForConnection(_) => None,
            RoleView::Drawer(d) => d.remaining(),
            RoleView::Guesser(g) => g.remaining(),
        }
    }

    /// The role that a reaction ends in: the new one, or the old one where
    /// the reaction names none.
    pub open spec fn replaced_by(self, next: Option<RoleView>) -> RoleView {
        match next {
            Some(role) => role,
            None => self,
        }
    }
}

impl Player for Role {
    fn render(&self) -> (captions: Vec<Caption>)
        ensures
            captions_view(captions@) == self@.captions(),
    {
        match self {
            Role::WaitingForConnection(w) => w.render(),
            Role::Drawer(d) => d.render(),
            Role::Guesser(g) => g.render(),
        }
    }

    /// Hands the action to the role that is active.
    fn process_action(&self, communications: &mut Communications, action: GameAction) -> (next:
        Option<Role>)
        ensures
            self@.steps_to(action@, self@.replaced_by(role_view(next))),
            final(communications)@ == self@.hub_after(old(communications)@, action@),
    {
        match self {
            Role::WaitingForConnection(w) => w.process_action(communications, action),
            Role::Drawer(d) => d.process_action(communications, action),
            Role::Guesser(g) => g.process_action(communications, action),
        }
    }
}

/// Every reaction keeps what the roles promise of their state: three
/// distinct words to pick from, at most one tick period on the clock, and
/// a guess no longer than the skeleton.
pub proof fn lemma_step_keeps_wf(role: RoleView, action: ActionView, after: RoleView)
    requires
        role.wf(),
        role.steps_to(action, after),
    ensures
        after.wf(),
{
}

/// A swap of roles turns any drawer into a guesser that waits for a word,
/// and any guesser into a drawer with three distinct words to pick from.
pub proof fn lemma_swap_symmetry(role: RoleView, after: RoleView)
    requires
        role.steps_to(ActionView::SwapRoles, after),
    ensures
        role is Drawer ==> after == RoleView::Guesser(GuesserView::WaitingForDrawer),
        role is Guesser ==> (after matches RoleView::Drawer(DrawerView::PickingWord(words))
            && words.len() == 3 && crate::player::drawer::distinct(words)),
{
}

/// Whether `states` are the roles that a peer goes through under `actions`.
pub open spec fn is_trace(states: Seq<RoleView>, actions: Seq<ActionView>) -> bool {
    &&& states.len() == actions.len() + 1
    &&& forall|k: int|
        0 <= k < actions.len() ==> (#[trigger] states[k]).steps_to(actions[k], states[k + 1])
}

/// Whether the peer's clock, as far as the actions `from .. to` report it
/// to a guesser, never runs backwards.
pub open spec fn reported_time_falls(
    states: Seq<RoleView>,
    actions: Seq<ActionView>,
    from: int,
    to: int,
) -> bool {
    forall|k: int|
        from <= k < to ==> ((#[trigger] states[k]) matches RoleView::Guesser(
            GuesserView::Guessing(t, _, _),
        ) ==> (actions[k] matches ActionView::SetTimeRemaining(reported) ==> reported <= t))
}

/// While one word is drawn or guessed, the seconds that remain never
/// increase, provided that the time reported to a guesser never does.
pub proof fn lemma_remaining_never_increases(
    states: Seq<RoleView>,
    actions: Seq<ActionView>,
    from: int,
    to: int,
)
    requires
        is_trace(states, actions),
        0 <= from <= to < states.len(),
        forall|k: int| from <= k <= to ==> (#[trigger] states[k]).remaining() is Some,
        reported_time_falls(states, actions, from, to),
    ensures
        states[to].remaining().unwrap() <= states[from].remaining().unwrap(),
    decreases to - from,
{
    if from < to {
        lemma_remaining_never_increases(states, actions, from, to - 1);
        let before = states[to - 1];
        assert(before.remaining() is Some);
        assert(states[to].remaining() is Some);
        assert(before.steps_to(actions[to - 1], states[to]));
    }
}

/// Whatever the actions, a peer that starts in a valid state stays in
/// valid states: in particular the guess typed so far never grows beyond
/// the skeleton.
pub proof fn lemma_trace_keeps_wf(states: Seq<RoleView>, actions: Seq<ActionView>, k: int)
    requires
        is_trace(states, actions),
        states[0].wf(),
        0 <= k < states.len(),
    ensures
        states[k].wf(),
    decreases k,
{
    if k > 0 {
        lemma_trace_keeps_wf(states, actions, k - 1);
        assert(states[k - 1].steps_to(actions[k - 1], states[k]));
        lemma_step_keeps_wf(states[k - 1], actions[k - 1], states[k]);
    }
}

} // verus!

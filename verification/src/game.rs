//! The game of one peer: its role and its hub, and the single place where
//! actions are dispatched.

use crate::canvas::CanvasOperation;
use crate::caption::{captions_view, Caption};
use crate::communications::{Communications, CommunicationsView, Event};
use crate::framing::parse_game_message;
use crate::game_action::{translated, ActionView, GameAction};
use crate::message::{decode, GameMessage, ProtocolError};
use crate::player::drawer::Drawer;
use crate::player::guesser::{Guesser, GuesserView};
use crate::player::waiting_player::WaitingPlayer;
use crate::player::{Player, Role, RoleView};
use vstd::prelude::*;

verus! {

pub struct Game {
    role: Role,
    communications: Communications,
}

/// The mathematical content of a [`Game`].
pub struct GameView {
    pub role: RoleView,
    pub communications: CommunicationsView,
}

impl View for Game {
    type V = GameView;

    closed spec fn view(&self) -> GameView {
        GameView { role: self.role@, communications: self.communications@ }
    }
}

/// What an action means for the local canvas: strokes of either peer are
/// drawn in blue, and a swap of roles wipes the canvas.
pub open spec fn canvas_effect(hub: CommunicationsView, action: ActionView) -> CommunicationsView {
    match action {
        ActionView::Draw(x, y) => hub.send_canvas_op(CanvasOperation::Pixel(x, y, 0, 0, 255)),
        ActionView::Erase(x, y) => hub.send_canvas_op(CanvasOperation::Erase(x, y)),
        ActionView::DrawLine(x1, y1, x2, y2) => hub.send_canvas_op(
            CanvasOperation::Line(x1, y1, x2, y2, 0, 0, 255),
        ),
        ActionView::EraseLine(x1, y1, x2, y2) => hub.send_canvas_op(
            CanvasOperation::EraseLine(x1, y1, x2, y2),
        ),
        ActionView::SwapRoles => hub.send_canvas_op(CanvasOperation::Clear),
        _ => hub,
    }
}

impl GameView {
    /// Whether `after` is a game that dispatching `action` may lead to.
    pub open spec fn steps_to(self, action: ActionView, after: GameView) -> bool {
        &&& self.role.steps_to(action, after.role)
        &&& after.communications == self.role.hub_after(
            canvas_effect(self.communications, action),
            action,
        )
    }
}

impl Game {
    /// A game that waits for its connection at `address`.
    pub fn new(address: String) -> (game: Self)
        ensures
            game@.role == RoleView::WaitingForConnection(address@),
            game@.communications.stream is None,
            game@.communications.actions == Seq::<ActionView>::empty(),
            game@.communications.canvas_ops == Seq::<CanvasOperation>::empty(),
    {
        Game {
            role: Role::WaitingForConnection(WaitingPlayer::new(address)),
            communications: Communications::new(None),
        }
    }

    /// The connection stands: the peer that hosted it draws first, the
    /// peer that joined guesses. Messages are written from now on.
    pub fn establish_connection(&mut self, hosting: bool)
        ensures
            final(self)@.communications == (CommunicationsView {
                stream: Some(Seq::empty()),
                ..old(self)@.communications
            }),
            hosting ==> (final(self)@.role matches RoleView::Drawer(d) && d.is_fresh()),
            !hosting ==> final(self)@.role == RoleView::Guesser(GuesserView::WaitingForDrawer),
    {
        self.communications.set_stream(Vec::new());
        self.role = if hosting {
            Role::Drawer(Drawer::new())
        } else {
            Role::Guesser(Guesser::new())
        };
    }

    /// The action that a message from the peer stands for.
    pub fn translate_message(message: GameMessage) -> (action: GameAction)
        ensures
            action@ == translated(message@),
    {
        match message {
            GameMessage::Draw(x, y) => GameAction::Draw(x, y),
            GameMessage::SetTimeRemaining(t) => GameAction::SetTimeRemaining(t),
            GameMessage::SetWordSkeleton(skeleton) => GameAction::SetWordSkeleton(skeleton),
            GameMessage::Guess(guess) => GameAction::Guess(guess),
            GameMessage::GuessResult(res) => GameAction::GuessResult(res),
            GameMessage::GameOver(word) => GameAction::GameOver(word),
            GameMessage::SwapRoles => GameAction::SwapRoles,
            GameMessage::Erase(x, y) => GameAction::Erase(x, y),
            GameMessage::DrawLine(x1, y1, x2, y2) => GameAction::DrawLine(x1, y1, x2, y2),
            GameMessage::EraseLine(x1, y1, x2, y2) => GameAction::EraseLine(x1, y1, x2, y2),
        }
    }

    /// Dispatches one action: first its effect on the local canvas, then
    /// the reaction of the active role, which may replace the role.
    pub fn process_action(&mut self, action: GameAction)
        ensures
            old(self)@.steps_to(action@, final(self)@),
    {
        match &action {
            GameAction::Draw(x, y) => {
                self.communications.send_canvas_op(CanvasOperation::Pixel(*x, *y, 0, 0, 255));
            },
            GameAction::Erase(x, y) => {
                self.communications.send_canvas_op(CanvasOperation::Erase(*x, *y));
            },
            GameAction::DrawLine(x1, y1, x2, y2) => {
                self.communications.send_canvas_op(
                    CanvasOperation::Line(*x1, *y1, *x2, *y2, 0, 0, 255),
                );
            },
            GameAction::EraseLine(x1, y1, x2, y2) => {
                self.communications.send_canvas_op(CanvasOperation::EraseLine(*x1, *y1, *x2, *y2));
            },
            GameAction::SwapRoles => {
                self.communications.send_canvas_op(CanvasOperation::Clear);
            },
            _ => {},
        }
        let next = self.role.process_action(&mut self.communications, action);
        if let Some(new) = next {
            self.role = new;
        }
    }

    /// Hands an input event to the hub, which posts the actions it stands for.
    pub fn process_event(&mut self, e: Event)
        ensures
            final(self)@.role == old(self)@.role,
            final(self)@.communications == old(self)@.communications.event(e),
    {
        self.communications.process_event(e);
    }

    /// Reads the frame at the start of `stream` and posts the action that
    /// its message stands for; returns the size of the frame. Where no
    /// frame can be read, nothing is posted.
    pub fn receive(&mut self, stream: &[u8]) -> (r: Result<usize, ProtocolError>)
        ensures
            final(self)@.role == old(self)@.role,
            match decode(stream@) {
                Ok((message, used)) => r == Ok::<usize, ProtocolError>(used as usize)
                    && final(self)@.communications == old(self)@.communications.send_action(
                    translated(message),
                ),
                Err(e) => r == Err::<usize, ProtocolError>(e) && final(self)@.communications
                    == old(self)@.communications,
            },
    {
        match parse_game_message(stream) {
            Ok((message, used)) => {
                self.communications.send_action(Self::translate_message(message));
                Ok(used)
            },
            Err(e) => Err(e),
        }
    }

    /// Takes the oldest posted action and dispatches it; returns whether
    /// there was one.
    pub fn dispatch(&mut self) -> (dispatched: bool)
        ensures
            dispatched == (old(self)@.communications.actions.len() > 0),
            !dispatched ==> final(self)@ == old(self)@,
            dispatched ==> (GameView {
                communications: CommunicationsView {
                    actions: old(self)@.communications.actions.drop_first(),
                    ..old(self)@.communications
                },
                ..old(self)@
            }).steps_to(old(self)@.communications.actions[0], final(self)@),
    {
        match self.communications.next_action() {
            Some(action) => {
                self.process_action(action);
                true
            },
            None => false,
        }
    }

    /// The lines of text that show the state of the game.
    pub fn render(&self) -> (captions: Vec<Caption>)
        ensures
            captions_view(captions@) == self@.role.captions(),
    {
        self.role.render()
    }

    /// The active role.
    pub fn role(&self) -> (role: &Role)
        ensures
            role@ == self@.role,
    {
        &self.role
    }

    /// Takes the bytes that wait to be written to the peer.
    pub fn take_outgoing(&mut self) -> (bytes: Vec<u8>)
        ensures
            final(self)@.role == old(self)@.role,
            bytes@ == match old(self)@.communications.stream {
                Some(written) => written,
                None => Seq::empty(),
            },
            final(self)@.communications == (CommunicationsView {
                stream: match old(self)@.communications.stream {
                    Some(_) => Some(Seq::empty()),
                    None => None,
                },
                ..old(self)@.communications
            }),
    {
        self.communications.take_outgoing()
    }

    /// Takes the oldest operation that waits for the canvas, if there is one.
    pub fn next_canvas_op(&mut self) -> (op: Option<CanvasOperation>)
        ensures
            final(self)@.role == old(self)@.role,
            old(self)@.communications.canvas_ops.len() == 0 ==> op is None && final(self)@
                == old(self)@,
            old(self)@.communications.canvas_ops.len() > 0 ==> op == Some(
                old(self)@.communications.canvas_ops[0],
            ) && final(self)@.communications == (CommunicationsView {
                canvas_ops: old(self)@.communications.canvas_ops.drop_first(),
                ..old(self)@.communications
            }),
    {
        self.communications.next_canvas_op()
    }
}

} // verus!

//! The hub through which every effect of the game passes: bytes for the
//! peer, actions posted back for dispatch, and operations for the canvas.
//!
//! The hub records effects; whoever owns the connection and the threads
//! carries them out, by taking the bytes and emptying the two queues.

use crate::canvas::CanvasOperation;
use crate::game_action::{ActionView, GameAction};
use crate::message::{GameMessage, MessageView};
use crate::ts_dequeue::TSDequeue;
use vstd::prelude::*;

verus! {

/// The side length, in window pixels, of one canvas cell.
pub const CELL_SIZE: u32 = 8;

/// What a pressed key means to the game.
#[derive(Clone, Copy, Debug, PartialEq, Eq, Structural)]
pub enum KeyboardButtonType {
    Letter(char),
    Number(u8),
    Enter,
    Backspace,
    Other,
}

impl KeyboardButtonType {
    /// The meaning of the key with the given code: `a` to `z` and `0` to
    /// `9` carry their ASCII codes, return is 13, backspace is 8.
    pub open spec fn of_key(key: u32) -> KeyboardButtonType {
        if 0x61 <= key <= 0x7a {
            KeyboardButtonType::Letter(key as char)
        } else if 0x30 <= key <= 0x39 {
            KeyboardButtonType::Number((key - 0x30) as u8)
        } else if key == 0x0d {
            KeyboardButtonType::Enter
        } else if key == 0x08 {
            KeyboardButtonType::Backspace
        } else {
            KeyboardButtonType::Other
        }
    }

    pub fn from_key(key: u32) -> (kind: KeyboardButtonType)
        ensures
            kind == Self::of_key(key),
    {
        if 0x61 <= key && key <= 0x7a {
            KeyboardButtonType::Letter((key as u8) as char)
        } else if 0x30 <= key && key <= 0x39 {
            KeyboardButtonType::Number((key - 0x30) as u8)
        } else if key == 0x0d {
            KeyboardButtonType::Enter
        } else if key == 0x08 {
            KeyboardButtonType::Backspace
        } else {
            KeyboardButtonType::Other
        }
    }
}

#[derive(Clone, Copy, Debug, PartialEq, Eq, Structural)]
pub enum ButtonState {
    Press,
    Release,
}

#[derive(Clone, Copy, Debug, PartialEq, Eq, Structural)]
pub enum MouseButton {
    Left,
    Right,
    Other,
}

#[derive(Clone, Copy, Debug, PartialEq, Eq, Structural)]
pub enum Button {
    /// A key, by its code.
    Keyboard(u32),
    Mouse(MouseButton),
    Other,
}

#[derive(Clone, Copy, Debug, PartialEq, Eq, Structural)]
pub struct ButtonArgs {
    pub state: ButtonState,
    pub button: Button,
}

/// An input event, as the window hands it over.
#[derive(Clone, Copy, Debug, PartialEq, Eq, Structural)]
pub enum Event {
    /// The cursor moved to a position, in window pixels.
    MouseCursor(u32, u32),
    /// A key or a mouse button changed its state.
    Button(ButtonArgs),
    /// Time went by, in microseconds.
    Update(u64),
    /// Anything else.
    Other,
}

/// What the hub remembers of the mouse.
#[derive(Clone, Copy, Debug, PartialEq, Eq)]
pub struct EventState {
    pub last_mouse_pos: (u32, u32),
    pub current_mouse_pos: (u32, u32),
    pub left_mouse_down: bool,
    pub right_mouse_down: bool,
}

pub struct Communications {
    stream: Option<Vec<u8>>,
    action_sender: TSDequeue<GameAction>,
    canvas_op_sender: TSDequeue<CanvasOperation>,
    event_state: EventState,
}

/// The mathematical content of the hub.
pub struct CommunicationsView {
    /// The bytes written to the peer and not yet taken; `None` before a
    /// connection is attached.
    pub stream: Option<Seq<u8>>,
    /// The posted actions that wait for dispatch, oldest first.
    pub actions: Seq<ActionView>,
    /// The canvas operations that wait for the canvas, oldest first.
    pub canvas_ops: Seq<CanvasOperation>,
    pub event_state: EventState,
}

impl CommunicationsView {
    /// Writing a message: its frame goes behind the bytes already written;
    /// without a connection nothing happens.
    pub open spec fn send_message(self, message: MessageView) -> CommunicationsView {
        CommunicationsView {
            stream: match self.stream {
                Some(bytes) => Some(bytes + message.encode()),
                None => None,
            },
            ..self
        }
    }

    pub open spec fn send_action(self, action: ActionView) -> CommunicationsView {
        CommunicationsView { actions: self.actions.push(action), ..self }
    }

    pub open spec fn send_canvas_op(self, op: CanvasOperation) -> CommunicationsView {
        CommunicationsView { canvas_ops: self.canvas_ops.push(op), ..self }
    }

    /// Posting the action that a key press stands for, if it stands for one.
    pub open spec fn keyboard_button(self, kind: KeyboardButtonType) -> CommunicationsView {
        match kind {
            KeyboardButtonType::Letter(c) => self.send_action(ActionView::TypeLetter(c)),
            KeyboardButtonType::Number(n) => self.send_action(ActionView::TypeNumber(n)),
            KeyboardButtonType::Enter => self.send_action(ActionView::Enter),
            KeyboardButtonType::Backspace => self.send_action(ActionView::DeleteLetter),
            KeyboardButtonType::Other => self,
        }
    }

    /// A key press posts what the key means; a mouse button records
    /// whether it is held and, when pressed, posts a click at the cursor.
    pub open spec fn button(self, args: ButtonArgs) -> CommunicationsView {
        let pressed = args.state == ButtonState::Press;
        let at = self.event_state.current_mouse_pos;
        match args.button {
            Button::Keyboard(key) => if pressed {
                self.keyboard_button(KeyboardButtonType::of_key(key))
            } else {
                self
            },
            Button::Mouse(MouseButton::Left) => {
                let held = CommunicationsView {
                    event_state: EventState { left_mouse_down: pressed, ..self.event_state },
                    ..self
                };
                if pressed {
                    held.send_action(ActionView::LeftClick(at.0, at.1))
                } else {
                    held
                }
            },
            Button::Mouse(MouseButton::Right) => {
                let held = CommunicationsView {
                    event_state: EventState { right_mouse_down: pressed, ..self.event_state },
                    ..self
                };
                if pressed {
                    held.send_action(ActionView::RightClick(at.0, at.1))
                } else {
                    held
                }
            },
            _ => self,
        }
    }

    /// A cursor move to a window position: the cell under the cursor
    /// becomes the current one, the former current one the last; with a
    /// button held, the segment between the two is posted as a drag.
    pub open spec fn mouse_cursor(self, px: u32, py: u32) -> CommunicationsView {
        let l = self.event_state.current_mouse_pos;
        let c = ((px / CELL_SIZE) as u32, (py / CELL_SIZE) as u32);
        let moved = CommunicationsView {
            event_state: EventState {
                last_mouse_pos: l,
                current_mouse_pos: c,
                ..self.event_state
            },
            ..self
        };
        let left = if self.event_state.left_mouse_down {
            moved.send_action(ActionView::LeftClickDrag(l.0, l.1, c.0, c.1))
        } else {
            moved
        };
        if self.event_state.right_mouse_down {
            left.send_action(ActionView::RightClickDrag(l.0, l.1, c.0, c.1))
        } else {
            left
        }
    }

    /// The hub after an input event.
    pub open spec fn event(self, e: Event) -> CommunicationsView {
        match e {
            Event::MouseCursor(px, py) => self.mouse_cursor(px, py),
            Event::Button(args) => self.button(args),
            Event::Update(dt) => self.send_action(ActionView::Update(dt)),
            Event::Other => self,
        }
    }
}

impl View for Communications {
    type V = CommunicationsView;

    closed spec fn view(&self) -> CommunicationsView {
        CommunicationsView {
            stream: match self.stream {
                Some(bytes) => Some(bytes@),
                None => None,
            },
            actions: self.action_sender@.map_values(|a: GameAction| a@),
            canvas_ops: self.canvas_op_sender@,
            event_state: self.event_state,
        }
    }
}

impl Communications {
    /// A hub with nothing posted and the mouse at rest in the corner.
    /// `stream` holds the bytes already written to the peer, or is `None`
    /// while no connection is attached.
    pub fn new(stream: Option<Vec<u8>>) -> (hub: Self)
        ensures
            hub@ == (CommunicationsView {
                stream: match stream {
                    Some(bytes) => Some(bytes@),
                    None => None,
                },
                actions: Seq::empty(),
                canvas_ops: Seq::empty(),
                event_state: EventState {
                    last_mouse_pos: (0, 0),
                    current_mouse_pos: (0, 0),
                    left_mouse_down: false,
                    right_mouse_down: false,
                },
            }),
    {
        let hub = Communications {
            stream,
            action_sender: TSDequeue::new(),
            canvas_op_sender: TSDequeue::new(),
            event_state: EventState {
                last_mouse_pos: (0, 0),
                current_mouse_pos: (0, 0),
                left_mouse_down: false,
                right_mouse_down: false,
            },
        };
        assert(hub@.actions =~= Seq::empty());
        hub
    }

    /// Attaches the connection: from now on messages are written to `stream`.
    pub fn set_stream(&mut self, stream: Vec<u8>)
        ensures
            final(self)@ == (CommunicationsView { stream: Some(stream@), ..old(self)@ }),
    {
        self.stream = Some(stream);
    }

    /// Posts an action for dispatch.
    pub fn send_action(&mut self, action: GameAction)
        ensures
            final(self)@ == old(self)@.send_action(action@),
    {
        self.action_sender.push(action);
        assert(final(self)@.actions =~= old(self)@.actions.push(action@));
    }

    /// Hands an operation to the canvas.
    pub fn send_canvas_op(&mut self, op: CanvasOperation)
        ensures
            final(self)@ == old(self)@.send_canvas_op(op),
    {
        self.canvas_op_sender.push(op);
    }

    /// Writes a message to the peer; does nothing while no connection is attached.
    pub fn send_message(&mut self, message: GameMessage)
        ensures
            final(self)@ == old(self)@.send_message(message@),
    {
        match &mut self.stream {
            Some(stream) => {
                message.send(stream);
            },
            None => {},
        }
    }
}

impl Communications {
    fn process_keyboard_button_event(&mut self, keyboard_button_type: KeyboardButtonType)
        ensures
            final(self)@ == old(self)@.keyboard_button(keyboard_button_type),
    {
        match keyboard_button_type {
            KeyboardButtonType::Letter(c) => {
                self.send_action(GameAction::TypeLetter(c));
            },
            KeyboardButtonType::Number(num) => {
                self.send_action(GameAction::TypeNumber(num));
            },
            KeyboardButtonType::Enter => {
                self.send_action(GameAction::Enter);
            },
            KeyboardButtonType::Backspace => {
                self.send_action(GameAction::DeleteLetter);
            },
            _ => {},
        }
    }

    fn process_button_event(&mut self, args: ButtonArgs)
        ensures
            final(self)@ == old(self)@.button(args),
    {
        let state = match args.state {
            ButtonState::Press => true,
            ButtonState::Release => false,
        };
        match args.button {
            Button::Keyboard(key) => {
                if state {
                    self.process_keyboard_button_event(KeyboardButtonType::from_key(key));
                }
            },
            Button::Mouse(mouse_button) => {
                match mouse_button {
                    MouseButton::Left => {
                        self.event_state.left_mouse_down = state;
                        if state {
                            let at = self.event_state.current_mouse_pos;
                            self.send_action(GameAction::LeftClick(at.0, at.1));
                        }
                    },
                    MouseButton::Right => {
                        self.event_state.right_mouse_down = state;
                        if state {
                            let at = self.event_state.current_mouse_pos;
                            self.send_action(GameAction::RightClick(at.0, at.1));
                        }
                    },
                    _ => {},
                }
            },
            _ => {},
        }
    }

    /// Translates an input event into the actions it stands for and posts them.
    pub fn process_event(&mut self, e: Event)
        ensures
            final(self)@ == old(self)@.event(e),
    {
        match e {
            Event::MouseCursor(px, py) => {
                let l = self.event_state.current_mouse_pos;
                let c = (px / CELL_SIZE, py / CELL_SIZE);
                let left = self.event_state.left_mouse_down;
                let right = self.event_state.right_mouse_down;
                self.event_state.last_mouse_pos = l;
                self.event_state.current_mouse_pos = c;
                if left {
                    self.send_action(GameAction::LeftClickDrag(l.0, l.1, c.0, c.1));
                }
                if right {
                    self.send_action(GameAction::RightClickDrag(l.0, l.1, c.0, c.1));
                }
            },
            Event::Button(args) => {
                self.process_button_event(args);
            },
            Event::Update(dt) => {
                self.send_action(GameAction::Update(dt));
            },
            Event::Other => {},
        }
    }

    /// What the hub remembers of the mouse.
    pub fn event_state(&self) -> (state: EventState)
        ensures
            state == self@.event_state,
    {
        self.event_state
    }

    /// Whether a connection is attached.
    pub fn is_connected(&self) -> (connected: bool)
        ensures
            connected == self@.stream.is_some(),
    {
        self.stream.is_some()
    }

    /// Takes the bytes written to the peer since the last call, for the
    /// owner of the connection to put on the wire. Without a connection
    /// there are none.
    pub fn take_outgoing(&mut self) -> (bytes: Vec<u8>)
        ensures
            bytes@ == match old(self)@.stream {
                Some(written) => written,
                None => Seq::empty(),
            },
            final(self)@ == (CommunicationsView {
                stream: match old(self)@.stream {
                    Some(_) => Some(Seq::empty()),
                    None => None,
                },
                ..old(self)@
            }),
    {
        match self.stream.take() {
            Some(written) => {
                self.stream = Some(Vec::new());
                written
            },
            None => Vec::new(),
        }
    }

    /// Takes the oldest posted action, if there is one.
    pub fn next_action(&mut self) -> (action: Option<GameAction>)
        ensures
            old(self)@.actions.len() == 0 ==> action is None && final(self)@ == old(self)@,
            old(self)@.actions.len() > 0 ==> (action matches Some(a) && a@ == old(self)@.actions[0]),
            old(self)@.actions.len() > 0 ==> final(self)@ == (CommunicationsView {
                actions: old(self)@.actions.drop_first(),
                ..old(self)@
            }),
    {
        if self.action_sender.is_empty() {
            None
        } else {
            let a = self.action_sender.pop();
            assert(final(self)@.actions =~= old(self)@.actions.drop_first());
            Some(a)
        }
    }

    /// Takes the oldest canvas operation, if there is one.
    pub fn next_canvas_op(&mut self) -> (op: Option<CanvasOperation>)
        ensures
            old(self)@.canvas_ops.len() == 0 ==> op is None && final(self)@ == old(self)@,
            old(self)@.canvas_ops.len() > 0 ==> op == Some(old(self)@.canvas_ops[0])
                && final(self)@ == (CommunicationsView {
                canvas_ops: old(self)@.canvas_ops.drop_first(),
                ..old(self)@
            }),
    {
        if self.canvas_op_sender.is_empty() {
            None
        } else {
            Some(self.canvas_op_sender.pop())
        }
    }
}

} // verus!

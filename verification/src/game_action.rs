//! The events that the active role reacts to: what the player does, what
//! the clock does, and what the peer sends.

use crate::message::MessageView;
use vstd::prelude::*;

verus! {

/// One event for the active role. Time is counted in microseconds.
#[derive(Debug, Clone, PartialEq, Eq)]
pub enum GameAction {
    /// Time went by: the microseconds since the previous update.
    Update(u64),
    /// A second of drawing time is over.
    Tick,
    TypeNumber(u8),
    TypeLetter(char),
    DeleteLetter,
    Enter,
    SetTimeRemaining(u32),
    SetWordSkeleton(String),
    Draw(u32, u32),
    Erase(u32, u32),
    DrawLine(u32, u32, u32, u32),
    EraseLine(u32, u32, u32, u32),
    LeftClick(u32, u32),
    RightClick(u32, u32),
    LeftClickDrag(u32, u32, u32, u32),
    RightClickDrag(u32, u32, u32, u32),
    Guess(String),
    GuessResult(Option<String>),
    GameOver(String),
    SwapRoles,
}

/// The mathematical content of a [`GameAction`].
pub enum ActionView {
    Update(u64),
    Tick,
    TypeNumber(u8),
    TypeLetter(char),
    DeleteLetter,
    Enter,
    SetTimeRemaining(u32),
    SetWordSkeleton(Seq<char>),
    Draw(u32, u32),
    Erase(u32, u32),
    DrawLine(u32, u32, u32, u32),
    EraseLine(u32, u32, u32, u32),
    LeftClick(u32, u32),
    RightClick(u32, u32),
    LeftClickDrag(u32, u32, u32, u32),
    RightClickDrag(u32, u32, u32, u32),
    Guess(Seq<char>),
    GuessResult(Option<Seq<char>>),
    GameOver(Seq<char>),
    SwapRoles,
}

impl View for GameAction {
    type V = ActionView;

    open spec fn view(&self) -> ActionView {
        match *self {
            GameAction::Update(dt) => ActionView::Update(dt),
            GameAction::Tick => ActionView::Tick,
            GameAction::TypeNumber(n) => ActionView::TypeNumber(n),
            GameAction::TypeLetter(c) => ActionView::TypeLetter(c),
            GameAction::DeleteLetter => ActionView::DeleteLetter,
            GameAction::Enter => ActionView::Enter,
            GameAction::SetTimeRemaining(t) => ActionView::SetTimeRemaining(t),
            GameAction::SetWordSkeleton(s) => ActionView::SetWordSkeleton(s@),
            GameAction::Draw(x, y) => ActionView::Draw(x, y),
            GameAction::Erase(x, y) => ActionView::Erase(x, y),
            GameAction::DrawLine(x1, y1, x2, y2) => ActionView::DrawLine(x1, y1, x2, y2),
            GameAction::EraseLine(x1, y1, x2, y2) => ActionView::EraseLine(x1, y1, x2, y2),
            GameAction::LeftClick(x, y) => ActionView::LeftClick(x, y),
            GameAction::RightClick(x, y) => ActionView::RightClick(x, y),
            GameAction::LeftClickDrag(x1, y1, x2, y2) => ActionView::LeftClickDrag(x1, y1, x2, y2),
            GameAction::RightClickDrag(x1, y1, x2, y2) => ActionView::RightClickDrag(
                x1,
                y1,
                x2,
                y2,
            ),
            GameAction::Guess(s) => ActionView::Guess(s@),
            GameAction::GuessResult(r) => ActionView::GuessResult(
                match r {
                    Some(s) => Some(s@),
                    None => None,
                },
            ),
            GameAction::GameOver(s) => ActionView::GameOver(s@),
            GameAction::SwapRoles => ActionView::SwapRoles,
        }
    }
}

/// The action that a message from the peer stands for.
pub open spec fn translated(message: MessageView) -> ActionView {
    match message {
        MessageView::Draw(x, y) => ActionView::Draw(x, y),
        MessageView::SetTimeRemaining(t) => ActionView::SetTimeRemaining(t),
        MessageView::SetWordSkeleton(s) => ActionView::SetWordSkeleton(s),
        MessageView::Guess(s) => ActionView::Guess(s),
        MessageView::GuessResult(r) => ActionView::GuessResult(r),
        MessageView::GameOver(s) => ActionView::GameOver(s),
        MessageView::SwapRoles => ActionView::SwapRoles,
        MessageView::Erase(x, y) => ActionView::Erase(x, y),
        MessageView::DrawLine(x1, y1, x2, y2) => ActionView::DrawLine(x1, y1, x2, y2),
        MessageView::EraseLine(x1, y1, x2, y2) => ActionView::EraseLine(x1, y1, x2, y2),
    }
}

} // verus!

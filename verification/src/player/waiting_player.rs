//! The role of a peer that has no connection yet: it may scribble on its
//! own canvas, and nothing else.

use crate::caption::{captions_view, center_text, centered, Caption, CaptionView};
use crate::communications::{Communications, CommunicationsView};
use crate::game_action::{ActionView, GameAction};
use crate::player::{Player, Role};
use vstd::prelude::*;
use vstd::string::*;

verus! {

#[derive(Debug, Clone, PartialEq, Eq)]
pub struct WaitingPlayer {
    address: String,
}

impl View for WaitingPlayer {
    type V = Seq<char>;

    /// The address that the peer is awaited at or looked for.
    closed spec fn view(&self) -> Seq<char> {
        self.address@
    }
}

/// The hub after a waiting player's reaction: clicks and drags become
/// strokes on the local canvas, by way of posted actions.
pub open spec fn waiting_hub_after(hub: CommunicationsView, action: ActionView) -> CommunicationsView {
    match action {
        ActionView::LeftClick(x, y) => hub.send_action(ActionView::Draw(x, y)),
        ActionView::RightClick(x, y) => hub.send_action(ActionView::Erase(x, y)),
        ActionView::LeftClickDrag(x1, y1, x2, y2) => hub.send_action(
            ActionView::DrawLine(x1, y1, x2, y2),
        ),
        ActionView::RightClickDrag(x1, y1, x2, y2) => hub.send_action(
            ActionView::EraseLine(x1, y1, x2, y2),
        ),
        _ => hub,
    }
}

/// What a waiting player shows: that it waits, and the address.
pub open spec fn waiting_captions(address: Seq<char>) -> Seq<CaptionView> {
    seq![centered("Waiting for Connection..."@, 400, 150), centered(address, 400, 250)]
}

impl WaitingPlayer {
    pub fn new(address: String) -> (player: Self)
        ensures
            player@ == address@,
    {
        Self { address }
    }

    pub fn address(&self) -> (address: &String)
        ensures
            address@ == self@,
    {
        &self.address
    }
}

impl Player for WaitingPlayer {
    fn render(&self) -> (captions: Vec<Caption>)
        ensures
            captions_view(captions@) == waiting_captions(self@),
    {
        let mut captions: Vec<Caption> = Vec::new();
        captions.push(center_text("Waiting for Connection...".to_owned(), 400, 150));
        captions.push(center_text(self.address.clone(), 400, 250));
        assert(captions_view(captions@) =~= waiting_captions(self@));
        captions
    }

    /// A waiting player never changes its role by itself.
    fn process_action(&self, communications: &mut Communications, action: GameAction) -> (next:
        Option<Role>)
        ensures
            next is None,
            final(communications)@ == waiting_hub_after(old(communications)@, action@),
    {
        match action {
            GameAction::LeftClick(x, y) => {
                communications.send_action(GameAction::Draw(x, y));
            },
            GameAction::RightClick(x, y) => {
                communications.send_action(GameAction::Erase(x, y));
            },
            GameAction::LeftClickDrag(x1, y1, x2, y2) => {
                communications.send_action(GameAction::DrawLine(x1, y1, x2, y2));
            },
            GameAction::RightClickDrag(x1, y1, x2, y2) => {
                communications.send_action(GameAction::EraseLine(x1, y1, x2, y2));
            },
            _ => {},
        }
        None
    }
}

} // verus!

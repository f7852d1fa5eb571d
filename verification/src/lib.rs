//! Core of a two-peer drawing-and-guessing game: the wire format, the canvas
//! model, the action hub and the role state machine.

pub mod canvas;
pub mod caption;
pub mod communications;
pub mod framing;
pub mod game;
pub mod game_action;
pub mod line;
pub mod message;
pub mod player;
pub mod raster;
pub mod text;
pub mod ts_dequeue;

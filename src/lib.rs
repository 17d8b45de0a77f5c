//! Replays chess moves given in algebraic notation and renders the
//! resulting position as a board diagram, together with the text of a
//! game document: the moves, the variation tables and the comments.

pub mod piece;
pub mod error;
pub mod square;
pub mod game;
pub mod search;
pub mod moves;
pub mod render;
pub mod text;
pub mod record;
pub mod document;

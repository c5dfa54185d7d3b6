//! A chess rules engine with a fixed-depth adversarial search.
//!
//! The library models a board of 64 squares, generates movement-pattern-legal
//! moves per piece and for the side to move, applies moves, and chooses a move
//! for an AI-controlled side with a depth-bounded minimax search with
//! alpha-beta cutoffs over a material-and-mobility evaluation.
//!
//! Castling, en passant, promotion, check detection and game-over detection
//! are deliberately absent: move legality is purely the movement pattern.

pub mod ai;
pub mod board;
pub mod moves;
pub mod piece;
pub mod pos;

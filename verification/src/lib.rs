//! Traits for abstract game position representations.
//!
//! General game-agnostic tools and engines can be built on this crate. It
//! represents any two-player, sequential, deterministic, perfect-information
//! game, such as chess, go, othello, connect four and tic-tac-toe.
//!
//! A game implements [`Position`], and [`EvalPosition`] and
//! [`ExtendedPosition`] where it offers more. Each trait states, beside its
//! operations, the model and the laws that an implementation has to meet, so
//! that an algorithm written against the traits can be proved once for every
//! game.

pub mod color;
pub mod eval_position;
pub mod extended_position;
pub mod game_result;
pub mod position;

pub use color::Color;
pub use eval_position::EvalPosition;
pub use extended_position::ExtendedPosition;
pub use game_result::GameResult;
pub use position::Position;

//! A pool mini-game whose score is recomputed from the shot: a fixed-point collision
//! and potting engine, a streak-based scoring of a turn, the table generator, and the
//! decisions around a session (configuration, dealing a table, playing it once).
use vstd::prelude::*;

pub mod game;
pub mod pool;
pub mod score;
pub mod table;

pub use game::{Admin, Deal, Error, Outcome, Session};
pub use pool::{Ball, Pocket, Pool};
pub use table::Table;

verus! {

/// Number of balls, and of pockets, on a table.
pub const MAX_BALLS: usize = 5;

} // verus!

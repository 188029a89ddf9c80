//! Core of a small paste service: the table of pastes, the line protocol that
//! drives it, and the page rendering of its web front end, all free of I/O.

pub mod data;
pub mod errors;
pub mod net;
pub mod routes;
pub mod text;
pub mod uid;

use vstd::prelude::*;

verus! {

/// The largest content that an upload may carry, in bytes.
pub const MAX_SIZE: usize = 1024 * 1024 * 10;

} // verus!

//! A small example actor: water jugs that can be filled, emptied and poured
//! into one another.

use vstd::prelude::*;

pub mod simple_jug;

verus! {

/// A jug operation failed.
#[derive(Debug, Clone, Copy, PartialEq, Eq, Structural)]
pub struct JugError;

} // verus!

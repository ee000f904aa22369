//! Why a universe could not be constructed.

use vstd::prelude::*;

verus! {

/// The two ways in which construction fails. Nothing else can fail: advancing
/// a universe is total.
#[derive(Clone, Copy, Debug, PartialEq, Eq, Structural)]
pub enum UniverseError {
    /// The width or the height is zero, or they do not match the cells given.
    InvalidDimensions,
    /// The life rate is not a probability: it does not lie between 0 and 1.
    InvalidProbability,
}

} // verus!

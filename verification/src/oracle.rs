//! What can go wrong when a rate is asked for.

use vstd::prelude::*;

verus! {

/// The ways in which a rate oracle lets its caller down.
#[derive(Clone, Copy, Debug, PartialEq, Eq, Structural)]
pub enum OracleFault {
    /// The request did not complete.
    Network,
    /// The answer could not be read.
    MalformedResponse,
    /// The answer holds no price for the pair.
    MissingPrice,
    /// The answer holds a price that is infinite or not a number.
    NonFinitePrice,
}

/// A failed quote: which conversion was asked for, by the positions of the
/// two assets in the list under construction, and what went wrong.
#[derive(Clone, Copy, Debug, PartialEq, Eq, Structural)]
pub struct OracleError {
    pub base: usize,
    pub target: usize,
    pub fault: OracleFault,
}

} // verus!

//! Errors of the interest engine.
use vstd::prelude::*;

verus! {

/// Why a statement could not be computed.
#[derive(Clone, Copy, Debug, PartialEq, Eq, Structural)]
pub enum EngineError {
    /// A transaction carries a negative amount.
    MalformedInput,
    /// An amount of the computation does not fit the amount type.
    Overflow,
}

} // verus!

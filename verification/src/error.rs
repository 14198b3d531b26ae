//! The error taxonomy of the verification pipeline; every failure is
//! terminal and short-circuits the enclosing check.

use vstd::prelude::*;

verus! {

/// Why dispatching, binding or aggregating a resource logic failed.
#[derive(Clone, Copy, Debug, PartialEq, Eq, Structural)]
pub enum TransactionError {
    /// The bytecode tag is not supported by this build.
    InvalidResourceLogicRepresentation,
    /// The bytecode's input bytes do not encode a well-formed instance.
    InvalidResourceLogicInputs,
    /// Direct evaluation found the logic's own constraints violated.
    UnsatisfiedResourceLogicConstraints,
    /// The logic's declared nullifier pair does not match the compliance
    /// pair, even unordered.
    InconsistentNullifier,
    /// The logic's declared commitment pair does not match the compliance
    /// pair, even unordered.
    InconsistentOutputResourceCommitment,
    /// Sibling logics on one resource disagree on the owned-resource id.
    InconsistentOwnedResourceID,
}

} // verus!

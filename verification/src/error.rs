//! The error type of the library.

use vstd::prelude::*;

verus! {

/// What a call into this library can fail with.
#[derive(Debug, PartialEq, Eq)]
pub enum SodiumError {
    /// A buffer has a length that the operation cannot work with: an output
    /// buffer outside the supported range, or a context tag of the wrong size.
    /// The text names the constraint that was broken.
    OutputLength(String),
    /// Reserved for a failure that the primitive reports on inputs that passed
    /// validation. No function of this library returns it.
    PrimitiveFailure(String),
}

pub type SodiumResult<T> = Result<T, SodiumError>;

/// `r` is an `OutputLength` error whose text is `text`.
pub open spec fn is_output_length(r: SodiumResult<()>, text: Seq<char>) -> bool {
    r matches Err(SodiumError::OutputLength(m)) && m@ == text
}

} // verus!

use vstd::prelude::*;
use arrow::error::ArrowError;

verus! {

/// `arrow`'s error type, carried inside the errors of this crate.
#[verifier::external_type_specification]
#[verifier::external_body]
pub struct ExArrowError(ArrowError);

/// Errors of writing values into Arrow builders.
#[derive(Debug)]
pub enum ArrowDestinationError {
    /// An error that the `arrow` crate reported.
    ArrowError(ArrowError),
}

/// The result of writing into Arrow builders.
pub type Result<T> = core::result::Result<T, ArrowDestinationError>;

} // verus!

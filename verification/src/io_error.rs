//! I/O errors, carried inside the library's error types.
use vstd::prelude::*;

verus! {

/// `std::io::Error`, carried through the library as an opaque value.
#[verifier::external_type_specification]
#[verifier::external_body]
pub struct ExIoError(std::io::Error);

/// The message of an I/O error, by its `Display` (`to_string`).
///
/// Nothing is stated of the text: for an operating-system error it is the
/// system's description of the error code, which the library cannot know.
#[verifier::external_body]
pub fn io_error_text(e: &std::io::Error) -> String {
    e.to_string()
}

} // verus!

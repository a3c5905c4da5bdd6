use vstd::prelude::*;

verus! {

/// The failure kinds of the pipeline: a request that cannot be sent or
/// answered, a response body that does not match the expected schema, a
/// download response without a declared content length, and a local file
/// write failure.
#[derive(Clone, Copy, Debug, PartialEq, Eq, Structural)]
pub enum SadlError {
    NetworkError,
    DecodeError,
    MissingContentLength,
    IoError,
}

} // verus!

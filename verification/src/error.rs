use vstd::prelude::*;

verus! {

/// A probe failure: a single descriptive cause string, created at the point
/// of failure and propagated to the caller unchanged.
#[derive(Debug)]
pub struct Error {
    pub cause: String,
}

impl Error {
    /// Wrap a descriptive cause string.
    pub fn new(cause: &str) -> (e: Error)
        ensures
            e.cause@ == cause@,
    {
        Error { cause: cause.to_owned() }
    }
}

} // verus!

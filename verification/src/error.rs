//! The library's error type: a host error number.
use vstd::prelude::*;

verus! {

/// An error, carrying the host's error number (`errno`).
#[derive(Clone, Copy, Debug, PartialEq, Eq, Structural)]
pub struct Error {
    errno: i32,
}

impl Error {
    /// An error with the given host error number.
    pub fn new(errno: i32) -> (r: Self)
        ensures
            r.errno() == errno,
    {
        Error { errno }
    }

    pub closed spec fn spec_errno(&self) -> i32 {
        self.errno
    }

    /// The host error number.
    #[verifier::when_used_as_spec(spec_errno)]
    pub fn errno(&self) -> (r: i32)
        ensures
            r == self.errno(),
    {
        self.errno
    }
}

} // verus!

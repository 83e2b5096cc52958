use vstd::prelude::*;

verus! {

/// The status code with which the remote collaborator reports success.
pub const OK_STATUS: i32 = 0;

/// Declares the standard library's I/O error so it can be carried in
/// [`Error::IO`]; nothing inside it is read by this crate.
#[verifier::external_type_specification]
#[verifier::external_body]
pub struct ExIoError(std::io::Error);

/// Everything a dump request can fail with.
#[derive(Debug)]
pub enum Error {
    /// A pipe could not be created or read, or the worker's receiving end
    /// was gone when the task was submitted.
    IO(std::io::Error),
    /// The remote call completed but reported this non-success status code,
    /// carried verbatim from the collaborator's own code space.
    DumpStatus(i32),
    /// Reserved for a pipe-type mismatch in the one-shot form; not produced
    /// by normal use of the documented operations.
    InvalidMethod,
    /// The name lookup failed: the service never registered within the
    /// collaborator's grace period.
    ServiceNotExist,
    /// The requested name is absent from the cache.
    NoEntryFound,
}

impl Error {
    /// A short description of the failure, in words.
    pub fn message(&self) -> (r: &'static str)
        ensures
            self is NoEntryFound ==> r@ == "no such entry found in the cache"@,
            self is ServiceNotExist ==> r@ == "service not exist"@,
    {
        proof {
            reveal_strlit("no such entry found in the cache");
            reveal_strlit("service not exist");
        }
        match self {
            Error::IO(_) => "i/o failure on the dump pipe or the worker",
            Error::DumpStatus(_) => "remote dump reported a non-success status",
            Error::InvalidMethod => "invalid method call for current pipe-type",
            Error::ServiceNotExist => "service not exist",
            Error::NoEntryFound => "no such entry found in the cache",
        }
    }
}

}

//! The error taxonomy shared by the registry and the per-instance operations.

use vstd::prelude::*;

verus! {

/// Every failure the library can report.
///
/// Registry-level violations (`InstanceExists`, `OutOfBounds`,
/// `AtLeastOneInstance`, `InstanceNotFound`) are returned to the caller and
/// never auto-corrected. `BadStatusCode`, `RequestError`, `IoError` and
/// `DeserializeError` describe failures of a single fetch against a single
/// instance; nothing here retries automatically. `PoisonError` stands for a
/// corrupted lock in a concurrent wrapper around this library; the verified
/// code never produces it.
#[derive(Clone, Copy, Debug, PartialEq, Eq, Structural)]
pub enum Error {
    InstanceExists,
    RequestError,
    IoError,
    PoisonError,
    OutOfBounds,
    DeserializeError,
    AtLeastOneInstance,
    InstanceNotFound,
    BadStatusCode,
}

impl Error {
    /// A short human-readable description of the error.
    pub fn message(&self) -> (r: &'static str)
        ensures
            r@ == spec_message(*self),
    {
        match self {
            Error::InstanceExists => "Instance already exists",
            Error::RequestError => "Request failed",
            Error::IoError => "IO error",
            Error::PoisonError => "Thread with lock panicked",
            Error::OutOfBounds => "Tried to get instance at non-existent index",
            Error::DeserializeError => "Failed to deserialize",
            Error::AtLeastOneInstance => "Must have at least one instance",
            Error::InstanceNotFound => "Instance not found",
            Error::BadStatusCode => "Instance returned bad status code",
        }
    }
}

/// The description `message` returns for each variant.
pub open spec fn spec_message(e: Error) -> Seq<char> {
    match e {
        Error::InstanceExists => "Instance already exists"@,
        Error::RequestError => "Request failed"@,
        Error::IoError => "IO error"@,
        Error::PoisonError => "Thread with lock panicked"@,
        Error::OutOfBounds => "Tried to get instance at non-existent index"@,
        Error::DeserializeError => "Failed to deserialize"@,
        Error::AtLeastOneInstance => "Must have at least one instance"@,
        Error::InstanceNotFound => "Instance not found"@,
        Error::BadStatusCode => "Instance returned bad status code"@,
    }
}

} // verus!

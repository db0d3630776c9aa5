//! The closed set of failures the sampling engine can report.

use vstd::prelude::*;

verus! {

/// `std::io::Error`, declared so that a generic I/O failure can carry its
/// underlying cause through the library untouched.
#[verifier::external_type_specification]
#[verifier::external_body]
pub struct ExIoError(std::io::Error);

/// Everything that can go wrong while discovering cores or sampling.
#[derive(Debug)]
pub enum Error {
    /// The register device exists but may not be opened for reading;
    /// typically the caller lacks the needed privilege.
    PermissionDenied,
    /// The per-CPU register device or topology entry is absent. During
    /// enumeration the discovery state machine treats this as the end of
    /// the ordinal space; anywhere else it is a hard failure.
    CoreNotFound,
    /// Any other I/O failure, carrying the underlying cause.
    IO(std::io::Error),
    /// Enumeration completed without finding a single core.
    NoCores,
    /// The topology attribute did not hold a clean integer.
    InvalidPackage,
}

impl Error {
    /// Classify a raw I/O failure into the library's error kinds.
    ///
    /// Relies on `std::io::Error::kind`: a denied open reports
    /// `ErrorKind::PermissionDenied` and an absent file reports
    /// `ErrorKind::NotFound`; every other kind is passed through with its
    /// cause.
    #[verifier::external_body]
    pub fn from_io(err: std::io::Error) -> (r: Error)
        ensures
            r is PermissionDenied || r is CoreNotFound || r is IO,
    {
        match err.kind() {
            std::io::ErrorKind::PermissionDenied => Error::PermissionDenied,
            std::io::ErrorKind::NotFound => Error::CoreNotFound,
            _ => Error::IO(err),
        }
    }
}

} // verus!

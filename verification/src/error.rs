//! The error taxonomy every operation reports through: local I/O failures,
//! native status failures, and synchronization failures, folded into one type.

use vstd::prelude::*;

use crate::status::Status;

verus! {

/// A synchronization failure, carrying its description.
#[derive(Debug, PartialEq, Eq)]
pub struct LockError {
    pub description: String,
}

impl LockError {
    pub fn new(description: String) -> (e: LockError)
        ensures
            e.description == description,
    {
        LockError { description }
    }

    /// The description this failure carries.
    pub fn description(&self) -> (r: &str)
        ensures
            r@ == self.description@,
    {
        self.description.as_str()
    }
}

/// The one failure type callers see, whatever the failure's origin.
#[derive(Debug, PartialEq, Eq)]
pub enum Error {
    /// A failure of local path or file handling, carrying its description.
    IoError(String),
    /// A failure reported by the native engine, carrying the decoded status.
    NotmuchError(Status),
    /// A synchronization failure.
    RwLockError(LockError),
}

impl Error {
    /// What `description` yields for each variant.
    pub open spec fn spec_description(self) -> Seq<char> {
        match self {
            Error::IoError(d) => d@,
            Error::NotmuchError(s) => s.spec_description(),
            Error::RwLockError(l) => l.description@,
        }
    }

    /// A human-readable description of the failure.
    pub fn description(&self) -> (r: &str)
        ensures
            r@ == self.spec_description(),
    {
        match self {
            Error::IoError(d) => d.as_str(),
            Error::NotmuchError(s) => s.description(),
            Error::RwLockError(l) => l.description(),
        }
    }

    /// Fold a raw native status code into the taxonomy, as the shell does
    /// with codes it gets straight from the native boundary.
    pub fn from_status_code(code: u32) -> (e: Error)
        ensures
            e == Error::NotmuchError(Status::spec_from_code(code)),
    {
        Error::NotmuchError(Status::from_code(code))
    }

    /// True of the failures the native engine reported itself.
    pub fn is_native(&self) -> (r: bool)
        ensures
            r == (*self is NotmuchError),
    {
        match self {
            Error::NotmuchError(_) => true,
            _ => false,
        }
    }
}

/// What checking a native status code yields: success for the success code,
/// the decoded failure for every other.
pub open spec fn spec_check_status(code: u32) -> Result<(), Error> {
    if Status::spec_from_code(code) is Success {
        Ok(())
    } else {
        Err(Error::NotmuchError(Status::spec_from_code(code)))
    }
}

/// Check a native status code, as every entry point must before trusting
/// any output of the native call that reported it.
pub fn check_status(code: u32) -> (r: Result<(), Error>)
    ensures
        r == spec_check_status(code),
{
    let status = Status::from_code(code);
    if status.is_success() {
        Ok(())
    } else {
        Err(Error::NotmuchError(status))
    }
}

} // verus!

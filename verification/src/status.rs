//! The status codes reported by the native engine, as a closed taxonomy,
//! and the mode value handed to the native open call.

use vstd::prelude::*;

verus! {

/// A native status code, decoded into a closed set of categories.
/// Codes outside the documented range are kept verbatim in `Unknown`,
/// so that decoding loses nothing.
#[derive(Clone, Copy, Debug, PartialEq, Eq, Structural)]
pub enum Status {
    Success,
    OutOfMemory,
    ReadOnlyDatabase,
    XapianException,
    FileError,
    FileNotEmail,
    DuplicateMessageId,
    NullPointer,
    TagTooLong,
    UnbalancedFreezeThaw,
    UnbalancedAtomic,
    UnsupportedOperation,
    UpgradeRequired,
    PathError,
    Unknown(u32),
}

impl Status {
    /// What `from_code` yields for each native code.
    pub open spec fn spec_from_code(code: u32) -> Status {
        if code == 0 {
            Status::Success
        } else if code == 1 {
            Status::OutOfMemory
        } else if code == 2 {
            Status::ReadOnlyDatabase
        } else if code == 3 {
            Status::XapianException
        } else if code == 4 {
            Status::FileError
        } else if code == 5 {
            Status::FileNotEmail
        } else if code == 6 {
            Status::DuplicateMessageId
        } else if code == 7 {
            Status::NullPointer
        } else if code == 8 {
            Status::TagTooLong
        } else if code == 9 {
            Status::UnbalancedFreezeThaw
        } else if code == 10 {
            Status::UnbalancedAtomic
        } else if code == 11 {
            Status::UnsupportedOperation
        } else if code == 12 {
            Status::UpgradeRequired
        } else if code == 13 {
            Status::PathError
        } else {
            Status::Unknown(code)
        }
    }

    /// The native code a decoded status stands for.
    pub open spec fn spec_code(self) -> u32 {
        match self {
            Status::Success => 0,
            Status::OutOfMemory => 1,
            Status::ReadOnlyDatabase => 2,
            Status::XapianException => 3,
            Status::FileError => 4,
            Status::FileNotEmail => 5,
            Status::DuplicateMessageId => 6,
            Status::NullPointer => 7,
            Status::TagTooLong => 8,
            Status::UnbalancedFreezeThaw => 9,
            Status::UnbalancedAtomic => 10,
            Status::UnsupportedOperation => 11,
            Status::UpgradeRequired => 12,
            Status::PathError => 13,
            Status::Unknown(code) => code,
        }
    }

    /// Decode a native status code.
    pub fn from_code(code: u32) -> (s: Status)
        ensures
            s == Status::spec_from_code(code),
    {
        match code {
            0 => Status::Success,
            1 => Status::OutOfMemory,
            2 => Status::ReadOnlyDatabase,
            3 => Status::XapianException,
            4 => Status::FileError,
            5 => Status::FileNotEmail,
            6 => Status::DuplicateMessageId,
            7 => Status::NullPointer,
            8 => Status::TagTooLong,
            9 => Status::UnbalancedFreezeThaw,
            10 => Status::UnbalancedAtomic,
            11 => Status::UnsupportedOperation,
            12 => Status::UpgradeRequired,
            13 => Status::PathError,
            _ => Status::Unknown(code),
        }
    }

    /// The native code this status stands for.
    pub fn code(&self) -> (c: u32)
        ensures
            c == self.spec_code(),
    {
        match *self {
            Status::Success => 0,
            Status::OutOfMemory => 1,
            Status::ReadOnlyDatabase => 2,
            Status::XapianException => 3,
            Status::FileError => 4,
            Status::FileNotEmail => 5,
            Status::DuplicateMessageId => 6,
            Status::NullPointer => 7,
            Status::TagTooLong => 8,
            Status::UnbalancedFreezeThaw => 9,
            Status::UnbalancedAtomic => 10,
            Status::UnsupportedOperation => 11,
            Status::UpgradeRequired => 12,
            Status::PathError => 13,
            Status::Unknown(code) => code,
        }
    }

    pub fn is_success(&self) -> (r: bool)
        ensures
            r == (*self is Success),
    {
        match *self {
            Status::Success => true,
            _ => false,
        }
    }

    /// What `description` yields for each status.
    pub open spec fn spec_description(self) -> Seq<char> {
        match self {
            Status::Success => "no error occurred"@,
            Status::OutOfMemory => "out of memory"@,
            Status::ReadOnlyDatabase => "attempt to write to a read-only database"@,
            Status::XapianException => "a Xapian exception occurred"@,
            Status::FileError => "something went wrong trying to read or write a file"@,
            Status::FileNotEmail => "file is not an email"@,
            Status::DuplicateMessageId => "message ID is identical to a message in the database"@,
            Status::NullPointer => "erroneous NULL pointer"@,
            Status::TagTooLong => "tag value is too long"@,
            Status::UnbalancedFreezeThaw => "unbalanced number of calls to freeze/thaw"@,
            Status::UnbalancedAtomic => "unbalanced number of calls to begin/end atomic"@,
            Status::UnsupportedOperation => "unsupported operation"@,
            Status::UpgradeRequired => "operation requires a database upgrade"@,
            Status::PathError => "path supplied is illegal for this function"@,
            Status::Unknown(_) => "unknown status value"@,
        }
    }

    /// A human-readable category for this status.
    pub fn description(&self) -> (r: &'static str)
        ensures
            r@ == self.spec_description(),
    {
        match *self {
            Status::Success => "no error occurred",
            Status::OutOfMemory => "out of memory",
            Status::ReadOnlyDatabase => "attempt to write to a read-only database",
            Status::XapianException => "a Xapian exception occurred",
            Status::FileError => "something went wrong trying to read or write a file",
            Status::FileNotEmail => "file is not an email",
            Status::DuplicateMessageId => "message ID is identical to a message in the database",
            Status::NullPointer => "erroneous NULL pointer",
            Status::TagTooLong => "tag value is too long",
            Status::UnbalancedFreezeThaw => "unbalanced number of calls to freeze/thaw",
            Status::UnbalancedAtomic => "unbalanced number of calls to begin/end atomic",
            Status::UnsupportedOperation => "unsupported operation",
            Status::UpgradeRequired => "operation requires a database upgrade",
            Status::PathError => "path supplied is illegal for this function",
            Status::Unknown(_) => "unknown status value",
        }
    }
}

/// Decoding keeps the native code: encoding a decoded status gives the
/// code back, for every 32-bit code.
pub proof fn lemma_code_round_trip(code: u32)
    ensures
        Status::spec_from_code(code).spec_code() == code,
{
}

/// The mode handed to the native open call.
#[derive(Clone, Copy, Debug, PartialEq, Eq, Structural)]
pub enum DatabaseMode {
    ReadOnly,
    ReadWrite,
}

impl DatabaseMode {
    /// What `code` yields: the native encoding of the mode.
    pub open spec fn spec_code(self) -> u32 {
        match self {
            DatabaseMode::ReadOnly => 0,
            DatabaseMode::ReadWrite => 1,
        }
    }

    /// The native encoding of the mode.
    pub fn code(&self) -> (c: u32)
        ensures
            c == self.spec_code(),
    {
        match *self {
            DatabaseMode::ReadOnly => 0,
            DatabaseMode::ReadWrite => 1,
        }
    }
}

} // verus!

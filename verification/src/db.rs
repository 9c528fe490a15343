use vstd::prelude::*;

verus! {

/// The failure kinds of a small database facade. The payloads carry the
/// underlying error's message.
pub enum DatabaseError {
    /// A write was attempted on a read-only database.
    IsReadOnly,
    /// An I/O failure, with its description.
    IOError(String),
    /// The database file is corrupted and needs a repair run.
    FileCorrupted(String),
}

impl DatabaseError {
    /// The numeric code of each kind.
    pub open spec fn spec_code(&self) -> i32 {
        match self {
            DatabaseError::IsReadOnly => 1,
            DatabaseError::IOError(_) => 2,
            DatabaseError::FileCorrupted(_) => 3,
        }
    }

    /// Returns the numeric code of the error kind.
    pub fn code(&self) -> (c: i32)
        ensures
            c == self.spec_code(),
    {
        match self {
            DatabaseError::IsReadOnly => 1,
            DatabaseError::IOError(_) => 2,
            DatabaseError::FileCorrupted(_) => 3,
        }
    }
}

} // verus!

//! Access levels of the memory page that backs a secret.

use vstd::prelude::*;

verus! {

/// What the owning process may do with the page that holds a secret.
///
/// The levels are totally ordered by how much they permit:
/// `NoAccess < ReadOnly < ReadWrite`.
#[derive(Clone, Copy, Debug, PartialEq, Eq, Structural)]
pub enum Protection {
    /// Neither reads nor writes are permitted.
    NoAccess,
    /// Reads are permitted, writes are not.
    ReadOnly,
    /// Reads and writes are permitted.
    ReadWrite,
}

impl Protection {
    /// Position of the level in the order of permissiveness.
    pub open spec fn rank(self) -> nat {
        match self {
            Protection::NoAccess => 0,
            Protection::ReadOnly => 1,
            Protection::ReadWrite => 2,
        }
    }

    /// Whether the level lets the secret be read.
    pub open spec fn permits_read(self) -> bool {
        self.rank() >= 1
    }

    /// Whether the level lets the secret be written.
    pub open spec fn permits_write(self) -> bool {
        self.rank() >= 2
    }

    /// Whether `self` permits everything that `other` permits.
    pub open spec fn covers(self, other: Protection) -> bool {
        self.rank() >= other.rank()
    }

    /// Tells whether the secret may be read at this level.
    pub fn can_read(self) -> (r: bool)
        ensures
            r == self.permits_read(),
    {
        match self {
            Protection::NoAccess => false,
            Protection::ReadOnly => true,
            Protection::ReadWrite => true,
        }
    }

    /// Tells whether the secret may be written at this level.
    pub fn can_write(self) -> (r: bool)
        ensures
            r == self.permits_write(),
    {
        match self {
            Protection::NoAccess => false,
            Protection::ReadOnly => false,
            Protection::ReadWrite => true,
        }
    }
}

} // verus!

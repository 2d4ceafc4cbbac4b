//! The errors of a replica.

use vstd::prelude::*;

verus! {

/// A failure of a replica that is neither of the two named ones.
#[derive(Clone, Copy, Debug, PartialEq, Eq, Structural)]
pub enum Fault {
    /// Frames arrived before the first handshake with a primary.
    MetaNotInitialized,
    /// A snapshot starts beyond the frame that the replica expects next:
    /// frames between the two would be skipped.
    SnapshotAhead {
        /// Number of the first frame of the snapshot.
        start_frame_no: u64,
        /// Number of the frame that the replica expects next.
        expected: u64,
    },
    /// The bytes of a snapshot end before its header does.
    SnapshotHeaderTruncated,
    /// The database engine could not apply the pages of a batch.
    ApplyFailed,
}

/// Why a replica cannot go on replicating.
#[derive(Clone, Copy, Debug, PartialEq, Eq, Structural)]
pub enum ReplicationError {
    /// The replica is ahead of the primary.
    Lagging,
    /// The replica holds the history of another database, or of another
    /// generation of this one: only a full resync brings it back.
    DbIncompatible,
    /// Any other failure.
    Other(Fault),
}

impl Fault {
    /// A description of the failure for a person to read.
    pub fn message(&self) -> (text: String)
        ensures
            text@ == match *self {
                Fault::MetaNotInitialized => "sync called before meta inialization"@,
                Fault::SnapshotAhead { .. } => "Snapshot header frame number does not match expected post-commit frame number"@,
                Fault::SnapshotHeaderTruncated => "failed to fill whole buffer"@,
                Fault::ApplyFailed => "failed to apply pages"@,
            },
    {
        match self {
            Fault::MetaNotInitialized => "sync called before meta inialization".to_owned(),
            Fault::SnapshotAhead { .. } => "Snapshot header frame number does not match expected post-commit frame number".to_owned(),
            Fault::SnapshotHeaderTruncated => "failed to fill whole buffer".to_owned(),
            Fault::ApplyFailed => "failed to apply pages".to_owned(),
        }
    }
}

impl ReplicationError {
    /// A description of the error for a person to read.
    pub fn message(&self) -> (text: String)
        ensures
            match *self {
                ReplicationError::Lagging => text@ == "Replica is ahead of primary"@,
                ReplicationError::DbIncompatible => text@
                    == "Trying to replicate incompatible databases"@,
                ReplicationError::Other(fault) => fault.message_is(text@),
            },
    {
        match self {
            ReplicationError::Lagging => "Replica is ahead of primary".to_owned(),
            ReplicationError::DbIncompatible => "Trying to replicate incompatible databases".to_owned(),
            ReplicationError::Other(fault) => fault.message(),
        }
    }
}

impl Fault {
    /// Whether `text` is the description of the failure.
    pub open spec fn message_is(&self, text: Seq<char>) -> bool {
        text == match *self {
            Fault::MetaNotInitialized => "sync called before meta inialization"@,
            Fault::SnapshotAhead { .. } => "Snapshot header frame number does not match expected post-commit frame number"@,
            Fault::SnapshotHeaderTruncated => "failed to fill whole buffer"@,
            Fault::ApplyFailed => "failed to apply pages"@,
        }
    }
}

} // verus!

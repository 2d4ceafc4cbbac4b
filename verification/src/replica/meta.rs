//! What a replica has applied: the state from which it resumes.

use crate::replica::error::{Fault, ReplicationError};
use crate::replicator::Hello;
use crate::snapshot::SnapshotFileHeader;
use crate::FrameNo;
pub use crate::NO_FRAME;
use vstd::prelude::*;

verus! {

/// The generation that metadata taken from a snapshot is given.
pub const SNAPSHOT_GENERATION_ID: u128 = 1;

/// What a replica has applied of the log of a primary.
#[derive(Clone, Copy, Debug, PartialEq, Eq, Structural)]
pub struct WalIndexMeta {
    /// Number of the last frame of the transaction being applied.
    pub pre_commit_frame_no: FrameNo,
    /// Number of the last frame of the last transaction applied.
    pub post_commit_frame_no: FrameNo,
    /// Generation of the primary that the frames came from.
    pub generation_id: u128,
    /// Identifier of the database that is replicated.
    pub database_id: u128,
}

impl WalIndexMeta {
    /// The number of the frame that the replica expects next: the one after
    /// the last applied, or 0 where none was applied.
    pub open spec fn expected_frame_no(&self) -> u64 {
        if self.post_commit_frame_no == NO_FRAME {
            0
        } else {
            (self.post_commit_frame_no + 1) as u64
        }
    }

    /// Computes the number of the frame that the replica expects next.
    pub fn next_frame_no(&self) -> (frame_no: FrameNo)
        ensures
            frame_no == self.expected_frame_no(),
    {
        self.post_commit_frame_no.wrapping_add(1)
    }

    /// The metadata of a replica after its first handshake: it has applied
    /// nothing of the database and generation that the primary named.
    pub fn new_from_hello(hello: &Hello) -> (meta: WalIndexMeta)
        ensures
            meta == (WalIndexMeta {
                pre_commit_frame_no: NO_FRAME,
                post_commit_frame_no: NO_FRAME,
                generation_id: hello.generation_id,
                database_id: hello.database_id,
            }),
    {
        WalIndexMeta {
            pre_commit_frame_no: NO_FRAME,
            post_commit_frame_no: NO_FRAME,
            generation_id: hello.generation_id,
            database_id: hello.database_id,
        }
    }

    /// The number of the last frame applied, if any was.
    pub fn current_frame_no(&self) -> (frame_no: Option<FrameNo>)
        ensures
            frame_no == if self.post_commit_frame_no == NO_FRAME {
                None
            } else {
                Some(self.post_commit_frame_no)
            },
    {
        if self.post_commit_frame_no != NO_FRAME {
            Some(self.post_commit_frame_no)
        } else {
            None
        }
    }

    /// What a later handshake makes of the metadata, see
    /// [`WalIndexMeta::merge_from_hello`].
    pub open spec fn merged(self, hello: Hello) -> Result<WalIndexMeta, ReplicationError> {
        if hello.database_id != self.database_id {
            Err(ReplicationError::DbIncompatible)
        } else if hello.generation_id == self.generation_id {
            Ok(self)
        } else if self.post_commit_frame_no == NO_FRAME && self.pre_commit_frame_no == NO_FRAME {
            Ok(WalIndexMeta { generation_id: hello.generation_id, ..self })
        } else {
            Err(ReplicationError::DbIncompatible)
        }
    }

    /// Holds the metadata against what a primary said in a handshake. A
    /// primary of another database, or of another generation than the one
    /// that frames were applied from, is incompatible. A replica that has
    /// applied nothing takes over the generation of the primary.
    pub fn merge_from_hello(self, hello: &Hello) -> (r: Result<WalIndexMeta, ReplicationError>)
        ensures
            r == self.merged(*hello),
    {
        if hello.database_id != self.database_id {
            return Err(ReplicationError::DbIncompatible);
        }
        if self.generation_id == hello.generation_id {
            Ok(self)
        } else if self.post_commit_frame_no == NO_FRAME && self.pre_commit_frame_no == NO_FRAME {
            Ok(
                WalIndexMeta {
                    pre_commit_frame_no: self.pre_commit_frame_no,
                    post_commit_frame_no: self.post_commit_frame_no,
                    generation_id: hello.generation_id,
                    database_id: self.database_id,
                },
            )
        } else {
            Err(ReplicationError::DbIncompatible)
        }
    }

    /// The metadata that a snapshot with the header `header` leaves.
    pub open spec fn from_snapshot(header: SnapshotFileHeader) -> WalIndexMeta {
        WalIndexMeta {
            pre_commit_frame_no: header.start_frame_no,
            post_commit_frame_no: header.start_frame_no,
            generation_id: SNAPSHOT_GENERATION_ID,
            database_id: header.db_id,
        }
    }
}

/// What applying a snapshot with the header `header` does to the metadata
/// `meta`, and the number of frames that it applies.
///
/// A snapshot that starts before the frame expected next was applied
/// already: nothing changes, and no frame is applied. One that starts beyond
/// it would skip frames: it is refused. One that starts at the frame
/// expected, or any snapshot where there is no metadata yet, replaces the
/// metadata.
pub open spec fn snapshot_applied(meta: Option<WalIndexMeta>, header: SnapshotFileHeader) -> Result<
    (Option<WalIndexMeta>, usize),
    ReplicationError,
> {
    match meta {
        Some(m) => if header.start_frame_no < m.expected_frame_no() {
            Ok((meta, 0usize))
        } else if header.start_frame_no > m.expected_frame_no() {
            Err(
                ReplicationError::Other(
                    Fault::SnapshotAhead {
                        start_frame_no: header.start_frame_no,
                        expected: m.expected_frame_no(),
                    },
                ),
            )
        } else {
            Ok((Some(WalIndexMeta::from_snapshot(header)), header.frame_count as usize))
        },
        None => Ok((Some(WalIndexMeta::from_snapshot(header)), header.frame_count as usize)),
    }
}

/// Applies the header of a snapshot to the metadata of a replica: see
/// [`snapshot_applied`]. Gives the number of frames that will be applied.
pub fn apply_snapshot_header(meta: &mut Option<WalIndexMeta>, header: &SnapshotFileHeader) -> (r:
    Result<usize, ReplicationError>)
    ensures
        match snapshot_applied(*old(meta), *header) {
            Ok((after, count)) => r == Ok::<usize, ReplicationError>(count) && *final(meta)
                == after,
            Err(e) => r == Err::<usize, ReplicationError>(e) && *final(meta) == *old(meta),
        },
{
    match meta {
        Some(m) => {
            let expected_frame_no: u64 = m.next_frame_no();
            if header.start_frame_no < expected_frame_no {
                return Ok(0);
            } else if header.start_frame_no > expected_frame_no {
                return Err(
                    ReplicationError::Other(
                        Fault::SnapshotAhead {
                            start_frame_no: header.start_frame_no,
                            expected: expected_frame_no,
                        },
                    ),
                );
            }
        },
        None => {},
    }
    // Metadata is loaded straight from the snapshot header and replaces any
    // previous values.
    *meta = Some(
        WalIndexMeta {
            pre_commit_frame_no: header.start_frame_no,
            post_commit_frame_no: header.start_frame_no,
            generation_id: SNAPSHOT_GENERATION_ID,
            database_id: header.db_id,
        },
    );
    Ok(
        #[verifier::truncate]
        (header.frame_count as usize),
    )
}

/// Records that the transaction which ends at the frame `frame_no` is about
/// to be applied. Fails where the replica has no metadata yet.
pub fn pre_commit(meta: &mut Option<WalIndexMeta>, frame_no: FrameNo) -> (r: Result<
    (),
    ReplicationError,
>)
    ensures
        match *old(meta) {
            Some(m) => r is Ok && *final(meta) == Some(
                WalIndexMeta { pre_commit_frame_no: frame_no, ..m },
            ),
            None => r == Err::<(), ReplicationError>(
                ReplicationError::Other(Fault::MetaNotInitialized),
            ) && *final(meta) == *old(meta),
        },
{
    match meta {
        Some(m) => {
            m.pre_commit_frame_no = frame_no;
            Ok(())
        },
        None => Err(ReplicationError::Other(Fault::MetaNotInitialized)),
    }
}

/// Records that the transaction which ends at the frame `frame_no` was
/// applied, and gives the frame number to announce. The transaction must be
/// the one that [`pre_commit`] recorded: anything else means that a
/// transaction was skipped or applied out of order. Fails where the replica
/// has no metadata yet.
pub fn post_commit(meta: &mut Option<WalIndexMeta>, frame_no: FrameNo) -> (r: Result<
    FrameNo,
    ReplicationError,
>)
    requires
        *old(meta) matches Some(m) ==> m.pre_commit_frame_no == frame_no,
    ensures
        match *old(meta) {
            Some(m) => r == Ok::<FrameNo, ReplicationError>(frame_no) && *final(meta) == Some(
                WalIndexMeta { post_commit_frame_no: frame_no, ..m },
            ),
            None => r == Err::<FrameNo, ReplicationError>(
                ReplicationError::Other(Fault::MetaNotInitialized),
            ) && *final(meta) == *old(meta),
        },
{
    match meta {
        Some(m) => {
            m.post_commit_frame_no = frame_no;
            Ok(frame_no)
        },
        None => Err(ReplicationError::Other(Fault::MetaNotInitialized)),
    }
}

/// Snapshot idempotence: where the header of a snapshot was applied,
/// applying it a second time changes nothing, the number of the last frame
/// applied least of all, and applies no frame.
pub proof fn lemma_snapshot_idempotent(meta: Option<WalIndexMeta>, header: SnapshotFileHeader)
    requires
        header.start_frame_no < NO_FRAME,
    ensures
        snapshot_applied(meta, header) matches Ok((after, _)) ==> snapshot_applied(after, header)
            == Ok::<(Option<WalIndexMeta>, usize), ReplicationError>((after, 0usize)),
{
}

} // verus!

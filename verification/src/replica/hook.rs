//! The hook that the database engine calls on a replica.
//!
//! A replica writes nothing of its own to its database. Each step of the
//! injector forces an empty write, and the hook puts in its place the frames
//! that were received: it hands their pages to the engine, batch by batch,
//! until a batch ends a transaction. Before the engine applies the last
//! batch of a transaction the hook records the frame number that is about to
//! be reached, and afterwards the one that was reached.

use crate::frame::{frame_header_of, Frame, FrameHeader, FRAME_HEADER_SIZE, FRAME_SIZE};
use crate::replica::error::{Fault, ReplicationError};
use crate::replica::meta::{post_commit, pre_commit, WalIndexMeta};
use crate::snapshot::{
    snapshot_frame_at, snapshot_frame_offset, SnapshotFile, SNAPSHOT_HEADER_SIZE,
};
use crate::FrameNo;
use vstd::prelude::*;
use vstd::slice::slice_subrange;

verus! {

/// The code with which the hook ends a step and stops replication.
pub const LIBSQL_EXIT_REPLICATION: u32 = 200;

/// The code with which the hook ends a step after which replication goes
/// on.
pub const LIBSQL_CONTINUE_REPLICATION: u32 = 201;

/// A unit of work for the injector.
#[derive(Debug)]
pub enum Frames {
    /// Frames to apply, in order.
    Vec(Vec<Frame>),
    /// A snapshot to apply whole.
    Snapshot(SnapshotFile),
}

/// What the engine is asked to apply for one batch.
#[derive(Clone, Copy, Debug, PartialEq, Eq, Structural)]
pub struct InjectRequest {
    /// Number of the last frame of the batch.
    pub last_frame_no: FrameNo,
    /// Size of the database after the batch, where the batch ends a
    /// transaction; 0 where it does not.
    pub size_after: u32,
}

impl InjectRequest {
    /// Whether the batch ends a transaction.
    pub open spec fn spec_is_commit(&self) -> bool {
        self.size_after != 0
    }

    /// Whether the batch ends a transaction.
    pub fn is_commit(&self) -> (r: bool)
        ensures
            r == self.spec_is_commit(),
    {
        self.size_after != 0
    }
}

impl Frames {
    /// The header of the last frame of the batch, if the batch holds a
    /// frame.
    pub open spec fn last_header(&self) -> Option<FrameHeader> {
        match *self {
            Frames::Vec(v) => if v@.len() == 0 {
                None
            } else {
                Some(frame_header_of(v@.last()@))
            },
            Frames::Snapshot(snapshot) => if snapshot.spec_header().frame_count == 0 {
                None
            } else {
                Some(
                    frame_header_of(
                        snapshot_frame_at(snapshot@, snapshot.spec_header().frame_count - 1),
                    ),
                )
            },
        }
    }

    /// What the engine is asked for the batch: the last frame says where
    /// the batch ends and whether a transaction ends with it. An empty batch
    /// ends none.
    pub open spec fn request(&self) -> InjectRequest {
        match self.last_header() {
            Some(header) => InjectRequest {
                last_frame_no: header.frame_no,
                size_after: header.size_after,
            },
            None => InjectRequest { last_frame_no: 0, size_after: 0 },
        }
    }

    /// Computes what the engine is asked for the batch.
    pub fn to_request(&self) -> (request: InjectRequest)
        ensures
            request == self.request(),
    {
        match self {
            Frames::Vec(v) => {
                let n: usize = v.len();
                if n == 0 {
                    InjectRequest { last_frame_no: 0, size_after: 0 }
                } else {
                    let header = v[n - 1].header();
                    InjectRequest { last_frame_no: header.frame_no, size_after: header.size_after }
                }
            },
            Frames::Snapshot(snapshot) => {
                let count: u64 = snapshot.header().frame_count;
                if count == 0 {
                    InjectRequest { last_frame_no: 0, size_after: 0 }
                } else {
                    let bytes = snapshot.as_bytes();
                    let size: usize = bytes.len();
                    assert(snapshot_frame_offset(count as int) == snapshot_frame_offset(count - 1)
                        + FRAME_SIZE);
                    let start: usize = SNAPSHOT_HEADER_SIZE + ((count - 1) as usize) * FRAME_SIZE;
                    let frame = slice_subrange(bytes, start, start + FRAME_SIZE);
                    let header = FrameHeader::from_bytes(
                        slice_subrange(frame, 0, FRAME_HEADER_SIZE),
                    );
                    InjectRequest { last_frame_no: header.frame_no, size_after: header.size_after }
                }
            },
        }
    }
}

/// What the replica's hook keeps between two batches.
#[derive(Clone, Copy, Debug, PartialEq, Eq, Structural)]
pub struct InjectorHookCtx {
    /// Whether a transaction is being applied: a batch was handed to the
    /// engine, and no batch since has ended the transaction.
    pub is_txn: bool,
}

/// What [`InjectorHookCtx::inject_pages_begin`] makes of the hook's state
/// and of the metadata, and whether it succeeds.
pub open spec fn inject_begun(
    meta: Option<WalIndexMeta>,
    request: InjectRequest,
) -> Result<Option<WalIndexMeta>, ReplicationError> {
    if request.size_after == 0 {
        Ok(meta)
    } else {
        match meta {
            Some(m) => Ok(Some(WalIndexMeta { pre_commit_frame_no: request.last_frame_no, ..m })),
            None => Err(ReplicationError::Other(Fault::MetaNotInitialized)),
        }
    }
}

impl InjectorHookCtx {
    /// The state of a hook that is applying no transaction.
    pub fn new() -> (ctx: InjectorHookCtx)
        ensures
            !ctx.is_txn,
    {
        InjectorHookCtx { is_txn: false }
    }

    /// A batch is about to be handed to the engine: a transaction is under
    /// way from now on. Where the batch ends the transaction, records the
    /// frame number that is about to be reached; this fails where the
    /// replica has no metadata yet, and the batch must then not be applied.
    pub fn inject_pages_begin(
        &mut self,
        meta: &mut Option<WalIndexMeta>,
        request: &InjectRequest,
    ) -> (r: Result<(), ReplicationError>)
        ensures
            final(self).is_txn,
            match inject_begun(*old(meta), *request) {
                Ok(after) => r is Ok && *final(meta) == after,
                Err(e) => r == Err::<(), ReplicationError>(e) && *final(meta) == *old(meta),
            },
    {
        self.is_txn = true;
        if request.size_after != 0 {
            return pre_commit(meta, request.last_frame_no);
        }
        Ok(())
    }

    /// The engine was handed the batch and returned `rc`. Where it
    /// succeeded and the batch ended a transaction, records the frame number
    /// that was reached and gives it back, to be announced: no transaction
    /// is under way any more. Fails where the engine failed.
    pub fn inject_pages_end(
        &mut self,
        meta: &mut Option<WalIndexMeta>,
        request: &InjectRequest,
        rc: i32,
    ) -> (r: Result<Option<FrameNo>, ReplicationError>)
        requires
            request.size_after != 0 ==> (*old(meta) matches Some(m) ==> m.pre_commit_frame_no
                == request.last_frame_no),
        ensures
            rc != 0 ==> r == Err::<Option<FrameNo>, ReplicationError>(
                ReplicationError::Other(Fault::ApplyFailed),
            ) && *final(meta) == *old(meta) && *final(self) == *old(self),
            rc == 0 && request.size_after == 0 ==> r == Ok::<Option<FrameNo>, ReplicationError>(
                None,
            ) && *final(meta) == *old(meta) && *final(self) == *old(self),
            rc == 0 && request.size_after != 0 ==> match *old(meta) {
                Some(m) => r == Ok::<Option<FrameNo>, ReplicationError>(
                    Some(request.last_frame_no),
                ) && *final(meta) == Some(
                    WalIndexMeta { post_commit_frame_no: request.last_frame_no, ..m },
                ) && !final(self).is_txn,
                None => r == Err::<Option<FrameNo>, ReplicationError>(
                    ReplicationError::Other(Fault::MetaNotInitialized),
                ) && *final(meta) == *old(meta) && *final(self) == *old(self),
            },
    {
        if rc == 0 {
            if request.size_after != 0 {
                let frame_no: u64 = match post_commit(meta, request.last_frame_no) {
                    Ok(frame_no) => frame_no,
                    Err(e) => {
                        return Err(e);
                    },
                };
                self.is_txn = false;
                return Ok(Some(frame_no));
            }
            Ok(None)
        } else {
            Err(ReplicationError::Other(Fault::ApplyFailed))
        }
    }

    /// What the hook does after a batch: with [`LIBSQL_EXIT_REPLICATION`] it
    /// ends the step and replication where the batch could not be applied;
    /// with [`LIBSQL_CONTINUE_REPLICATION`] it ends the step where no
    /// transaction is under way; with `None` it waits for the next batch.
    pub fn after_batch(&self, applied: bool) -> (code: Option<u32>)
        ensures
            code == if !applied {
                Some(LIBSQL_EXIT_REPLICATION)
            } else if !self.is_txn {
                Some(LIBSQL_CONTINUE_REPLICATION)
            } else {
                None
            },
    {
        if !applied {
            Some(LIBSQL_EXIT_REPLICATION)
        } else if !self.is_txn {
            Some(LIBSQL_CONTINUE_REPLICATION)
        } else {
            None
        }
    }

    /// What the hook does when no batch will come any more: it ends the
    /// step and replication.
    pub fn after_close(&self) -> (code: u32)
        ensures
            code == LIBSQL_EXIT_REPLICATION,
    {
        LIBSQL_EXIT_REPLICATION
    }
}

} // verus!

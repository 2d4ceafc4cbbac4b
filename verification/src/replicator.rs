//! The replica as its host sees it: the messages it exchanges with a
//! primary, and the bookkeeping of a sync.

use crate::frame::Frame;
use crate::replica::error::{Fault, ReplicationError};
use crate::replica::hook::{inject_begun, Frames, InjectRequest};
use crate::replica::injector::FrameInjector;
use crate::replica::meta::{apply_snapshot_header, snapshot_applied, WalIndexMeta, NO_FRAME};
use crate::snapshot::{parse_snapshot_header, SnapshotFileHeader, SNAPSHOT_HEADER_SIZE};
use crate::FrameNo;
use vstd::prelude::*;
use vstd::slice::slice_subrange;

verus! {

/// Asks a primary for the frames from `next_offset` on.
#[derive(Clone, Copy, Debug, PartialEq, Eq, Structural)]
pub struct FramesRequest {
    /// Number of the first frame asked for.
    pub next_offset: u64,
}

/// The frames that a primary answers with.
#[derive(Debug)]
pub struct ReplicationFrames {
    /// The frames, in order.
    pub frames: Vec<Frame>,
}

/// What a primary says of itself in a handshake.
#[derive(Clone, Copy, Debug, PartialEq, Eq, Structural)]
pub struct Hello {
    /// Identifier of the primary's generation.
    pub generation_id: u128,
    /// Number of the first frame of the generation.
    pub generation_start_index: u64,
    /// Identifier of the database.
    pub database_id: u128,
}

/// A replica: what it has applied, where it reads on in the primary's log,
/// and the injector that applies what it receives.
#[derive(Debug)]
pub struct Replicator {
    /// The latest frame number applied, as announced to those who wait for
    /// it; [`NO_FRAME`] before the first.
    pub current_frame_no_notifier: FrameNo,
    /// What the replica has applied; `None` before the first handshake or
    /// snapshot.
    pub meta: Option<WalIndexMeta>,
    /// The injector that applies frames to the local database.
    pub injector: FrameInjector,
    /// Number of the next frame to ask the primary for.
    pub next_offset: u64,
}

/// The number of frames that syncing `frames` applies, and what it does to
/// the metadata `meta`: a batch of frames applies them all, and a snapshot
/// what its header says, see [`snapshot_applied`].
pub open spec fn sync_planned(meta: Option<WalIndexMeta>, frames: Frames) -> Result<
    (Option<WalIndexMeta>, usize),
    ReplicationError,
> {
    match frames {
        Frames::Vec(v) => Ok((meta, v@.len() as usize)),
        Frames::Snapshot(snapshot) => snapshot_applied(meta, snapshot.spec_header()),
    }
}

impl Replicator {
    /// A replica that has applied nothing and has not met a primary.
    pub fn new() -> (replicator: Replicator)
        ensures
            replicator.meta is None,
            replicator.next_offset == 0,
            replicator.current_frame_no_notifier == NO_FRAME,
            !replicator.injector.hook_ctx.is_txn,
    {
        Replicator {
            current_frame_no_notifier: NO_FRAME,
            meta: None,
            injector: FrameInjector::new(),
            next_offset: 0,
        }
    }

    /// Applies the header of the snapshot file that starts with `bytes` to
    /// the replica's metadata, and gives the number of frames that applying
    /// the snapshot will apply: none where the snapshot was applied already.
    /// Fails where the bytes end before the header does, and where the
    /// snapshot would skip frames.
    pub fn update_metadata_from_snapshot_header(&mut self, bytes: &[u8]) -> (r: Result<
        usize,
        ReplicationError,
    >)
        ensures
            final(self).next_offset == old(self).next_offset,
            final(self).injector == old(self).injector,
            final(self).current_frame_no_notifier == old(self).current_frame_no_notifier,
            bytes@.len() < SNAPSHOT_HEADER_SIZE ==> r == Err::<usize, ReplicationError>(
                ReplicationError::Other(Fault::SnapshotHeaderTruncated),
            ) && final(self).meta == old(self).meta,
            bytes@.len() >= SNAPSHOT_HEADER_SIZE ==> match snapshot_applied(
                old(self).meta,
                parse_snapshot_header(bytes@.subrange(0, SNAPSHOT_HEADER_SIZE as int)),
            ) {
                Ok((after, count)) => r == Ok::<usize, ReplicationError>(count) && final(self).meta
                    == after,
                Err(e) => r == Err::<usize, ReplicationError>(e) && final(self).meta == old(
                    self,
                ).meta,
            },
    {
        if bytes.len() < SNAPSHOT_HEADER_SIZE {
            return Err(ReplicationError::Other(Fault::SnapshotHeaderTruncated));
        }
        let snapshot_header = SnapshotFileHeader::from_bytes(
            slice_subrange(bytes, 0, SNAPSHOT_HEADER_SIZE),
        );
        apply_snapshot_header(&mut self.meta, &snapshot_header)
    }

    /// Prepares the sync of `frames` and gives the number of frames to
    /// apply. Where it is 0 there is nothing to do; otherwise the caller
    /// hands `frames` to the injector and lets it take a step.
    pub fn sync(&mut self, frames: &Frames) -> (r: Result<usize, ReplicationError>)
        ensures
            final(self).next_offset == old(self).next_offset,
            final(self).injector == old(self).injector,
            final(self).current_frame_no_notifier == old(self).current_frame_no_notifier,
            match sync_planned(old(self).meta, *frames) {
                Ok((after, count)) => r == Ok::<usize, ReplicationError>(count) && final(self).meta
                    == after,
                Err(e) => r == Err::<usize, ReplicationError>(e) && final(self).meta == old(
                    self,
                ).meta,
            },
    {
        match frames {
            Frames::Snapshot(snapshot) => {
                let header = snapshot.header();
                apply_snapshot_header(&mut self.meta, &header)
            },
            Frames::Vec(v) => Ok(v.len()),
        }
    }

    /// Whether a step of the injector follows a sync that applies
    /// `frames_to_apply` frames: none follows where there is nothing to
    /// apply, and the frames are then not handed to the injector.
    pub fn step_follows(frames_to_apply: usize) -> (follows: bool)
        ensures
            follows == (frames_to_apply != 0),
    {
        frames_to_apply != 0
    }

    /// Begins a batch: a transaction is under way from now on, and where
    /// the batch ends it, the frame number that is about to be reached is
    /// recorded. See [`InjectorHookCtx::inject_pages_begin`].
    pub fn begin_batch(&mut self, request: &InjectRequest) -> (r: Result<(), ReplicationError>)
        ensures
            final(self).injector.hook_ctx.is_txn,
            final(self).next_offset == old(self).next_offset,
            final(self).current_frame_no_notifier == old(self).current_frame_no_notifier,
            match inject_begun(old(self).meta, *request) {
                Ok(after) => r is Ok && final(self).meta == after,
                Err(e) => r == Err::<(), ReplicationError>(e) && final(self).meta == old(
                    self,
                ).meta,
            },
    {
        self.injector.hook_ctx.inject_pages_begin(&mut self.meta, request)
    }

    /// Ends a batch that the engine was handed and returned `rc` from.
    /// Where the engine succeeded and the batch ended a transaction, the
    /// frame number that was reached is recorded, announced as the latest
    /// frame applied, and given back. Fails, and announces nothing, where
    /// the engine failed or the replica has no metadata.
    pub fn end_batch(&mut self, request: &InjectRequest, rc: i32) -> (r: Result<
        Option<FrameNo>,
        ReplicationError,
    >)
        requires
            request.size_after != 0 ==> (old(self).meta matches Some(m) ==> m.pre_commit_frame_no
                == request.last_frame_no),
        ensures
            final(self).next_offset == old(self).next_offset,
            rc != 0 ==> r == Err::<Option<FrameNo>, ReplicationError>(
                ReplicationError::Other(Fault::ApplyFailed),
            ) && *final(self) == *old(self),
            rc == 0 && request.size_after == 0 ==> r == Ok::<Option<FrameNo>, ReplicationError>(
                None,
            ) && *final(self) == *old(self),
            rc == 0 && request.size_after != 0 ==> match old(self).meta {
                Some(m) => {
                    &&& r == Ok::<Option<FrameNo>, ReplicationError>(Some(request.last_frame_no))
                    &&& final(self).meta == Some(
                        WalIndexMeta { post_commit_frame_no: request.last_frame_no, ..m },
                    )
                    &&& !final(self).injector.hook_ctx.is_txn
                    &&& final(self).current_frame_no_notifier == request.last_frame_no
                },
                None => r == Err::<Option<FrameNo>, ReplicationError>(
                    ReplicationError::Other(Fault::MetaNotInitialized),
                ) && *final(self) == *old(self),
            },
    {
        let applied = self.injector.hook_ctx.inject_pages_end(&mut self.meta, request, rc);
        match applied {
            Ok(Some(frame_no)) => {
                self.current_frame_no_notifier = frame_no;
            },
            _ => {},
        }
        applied
    }

    /// Whether a fetch that failed with the status code `code` is tried
    /// again after a new handshake: so it is when the primary asks for one.
    pub fn retries_with_hello(code: crate::replication_log::Code) -> (retry: bool)
        ensures
            retry == (code == crate::replication_log::Code::FailedPrecondition),
    {
        match code {
            crate::replication_log::Code::FailedPrecondition => true,
            _ => false,
        }
    }

    /// Records that `count` frames were fetched: the next fetch starts
    /// after them. The offset wraps around at the largest frame number.
    pub fn advance(&mut self, count: usize) -> (previous: u64)
        ensures
            previous == old(self).next_offset,
            final(self).next_offset == if old(self).next_offset + count > u64::MAX {
                old(self).next_offset + count - 0x1_0000_0000_0000_0000
            } else {
                old(self).next_offset + count
            },
            final(self).meta == old(self).meta,
            final(self).injector == old(self).injector,
            final(self).current_frame_no_notifier == old(self).current_frame_no_notifier,
    {
        let previous: u64 = self.next_offset;
        self.next_offset = previous.wrapping_add(count as u64);
        previous
    }
}

} // verus!

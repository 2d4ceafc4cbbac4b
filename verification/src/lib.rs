//! Replication core of an embedded database: the durable frame log of a
//! primary, the services that stream it to replicas, and the pipeline with
//! which a replica applies what it receives.
//!
//! Every committed write is captured as a sequence of page-sized frames.
//! Frames carry a monotonically increasing number and a rolling checksum, and
//! a transaction ends at the frame whose `size_after` is not zero.

use vstd::prelude::*;

pub mod checksum;
pub mod encoding;
pub mod error;
pub mod frame;
pub mod hrana;
pub mod ids;
pub mod primary;
pub mod replica;
pub mod replication_log;
pub mod replicator;
pub mod snapshot;
pub mod statement;
pub mod storage;

pub use frame::{Frame, FrameHeader};
pub use primary::log_model::LogReadError;
pub use primary::logger::ReplicationLogger;
pub use replica::hook::{Frames, InjectorHookCtx};
pub use replicator::{FramesRequest, Hello, ReplicationFrames, Replicator};

verus! {

/// Size in bytes of a database page, fixed for the lifetime of a log.
pub const WAL_PAGE_SIZE: i32 = 4096;

/// The bytes `SQLDWAL\0`, read as a little-endian integer.
pub const WAL_MAGIC: u64 = 0x004c_4157_444c_5153;

/// The monotonically increasing number that identifies a frame.
pub type FrameNo = u64;

/// The frame number that stands for "no frame": it is announced where no
/// frame was ever committed, and a replica that has applied nothing has it
/// in both its frame numbers. No frame carries it.
pub const NO_FRAME: FrameNo = 0xffff_ffff_ffff_ffff;

/// How many frames there are up to and including the one numbered
/// `frame_no`: one more than that number, and none for [`NO_FRAME`].
pub open spec fn frames_up_to(frame_no: FrameNo) -> int {
    if frame_no == NO_FRAME {
        0
    } else {
        frame_no + 1
    }
}

} // verus!

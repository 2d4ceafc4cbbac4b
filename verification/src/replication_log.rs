//! The service with which a primary answers its replicas: the handshake,
//! the stream of log entries, and the stream of a snapshot.
//!
//! A replica has to greet the primary before it is served log entries.

use crate::frame::Frame;
use crate::ids::{id_text, id_to_string};
use crate::primary::frame_stream::FrameStream;
use crate::primary::log_model::LogReadError;
use crate::primary::logger::ReplicationLogger;
use crate::snapshot::{
    find_snapshot_file, frames_from, none_covers, snapshot_frame_at, SnapshotFile,
};
use vstd::prelude::*;

verus! {

/// The message of the status that asks a replica to greet first.
pub const NO_HELLO_ERROR_MSG: &'static str = "NO_HELLO";

/// The message of the status that sends a replica to the snapshots.
pub const NEED_SNAPSHOT_ERROR_MSG: &'static str = "NEED_SNAPSHOT";

/// The kind of a failure, as the remote caller is told.
#[derive(Clone, Copy, Debug, PartialEq, Eq, Structural)]
pub enum Code {
    /// The caller has to do something else first.
    FailedPrecondition,
    /// The service itself failed.
    Internal,
    /// What was asked for does not exist yet.
    OutOfRange,
    /// What was asked for cannot be had.
    Unavailable,
}

/// A failure, as the remote caller is told.
#[derive(Debug)]
pub struct Status {
    /// The kind of the failure.
    pub code: Code,
    /// What went wrong.
    pub message: String,
}

/// The address from which a replica calls.
#[derive(Clone, Copy, Debug, PartialEq, Eq, Structural)]
pub struct PeerAddr {
    /// The network address, as a number.
    pub ip: u128,
    /// The port.
    pub port: u16,
}

/// An encoded frame on its way to a replica.
#[derive(Debug)]
pub struct WireFrame {
    /// The bytes of the frame, as they are in the log.
    pub data: Vec<u8>,
}

/// What the primary says of itself to a replica that greets it.
#[derive(Debug)]
pub struct HelloResponse {
    /// Identifier of the database, as text.
    pub database_id: String,
    /// Number of the first frame of the primary's generation.
    pub generation_start_index: u64,
    /// Identifier of the primary's generation, as text.
    pub generation_id: String,
}

/// The service of a primary, with the replicas that have greeted it.
#[derive(Debug)]
pub struct ReplicationLogService {
    replicas_with_hello: Vec<PeerAddr>,
}

impl View for ReplicationLogService {
    type V = Set<PeerAddr>;

    closed spec fn view(&self) -> Set<PeerAddr> {
        Set::new(|peer: PeerAddr| self.replicas_with_hello@.contains(peer))
    }
}

/// How the outcome of reading a frame is told to a replica: the frame as
/// its bytes, and a failure as a status that says what the replica can do.
/// A frame older than the log sends it to the snapshots
/// ([`NEED_SNAPSHOT_ERROR_MSG`]); one that is not yet committed is out of
/// range.
pub open spec fn stream_output(r: Result<Seq<u8>, LogReadError>, out: Result<WireFrame, Status>) -> bool {
    match r {
        Ok(bytes) => out matches Ok(frame) && frame.data@ == bytes,
        Err(LogReadError::SnapshotRequired) => out matches Err(status) && status.code
            == Code::FailedPrecondition && status.message@ == NEED_SNAPSHOT_ERROR_MSG@,
        Err(LogReadError::Error(e)) => out matches Err(status) && status.code == Code::Internal
            && status.message@ == e.spec_message(),
        Err(LogReadError::Ahead) => out matches Err(status) && status.code == Code::OutOfRange
            && status.message@ == "frame not yet available"@,
    }
}

/// Tells the outcome of reading a frame to a replica: see
/// [`stream_output`].
pub fn map_frame_stream_output(r: Result<Frame, LogReadError>) -> (out: Result<WireFrame, Status>)
    ensures
        stream_output(
            match r {
                Ok(frame) => Ok(frame@),
                Err(e) => Err(e),
            },
            out,
        ),
{
    match r {
        Ok(frame) => Ok(WireFrame { data: frame.bytes() }),
        Err(LogReadError::SnapshotRequired) => Err(
            Status { code: Code::FailedPrecondition, message: NEED_SNAPSHOT_ERROR_MSG.to_owned() },
        ),
        Err(LogReadError::Error(e)) => Err(Status { code: Code::Internal, message: e.message() }),
        // This error should be caught before, but it is handled all the same.
        Err(LogReadError::Ahead) => Err(
            Status { code: Code::OutOfRange, message: "frame not yet available".to_owned() },
        ),
    }
}

impl ReplicationLogService {
    /// No replica is registered twice.
    #[verifier::type_invariant]
    spec fn registered_once(self) -> bool {
        self.replicas_with_hello@.no_duplicates()
    }

    /// A service that no replica has greeted.
    pub fn new() -> (service: ReplicationLogService)
        ensures
            service@ == Set::<PeerAddr>::empty(),
    {
        let service = ReplicationLogService { replicas_with_hello: Vec::new() };
        assert(service@ =~= Set::<PeerAddr>::empty());
        service
    }

    /// Whether the replica at `peer` has greeted the primary.
    pub fn has_hello(&self, peer: &PeerAddr) -> (known: bool)
        ensures
            known == self@.contains(*peer),
    {
        let n: usize = self.replicas_with_hello.len();
        let mut i: usize = 0;
        while i < n
            invariant
                0 <= i <= n,
                n == self.replicas_with_hello@.len(),
                forall|j: int| 0 <= j < i ==> self.replicas_with_hello@[j] != *peer,
            decreases n - i,
        {
            if self.replicas_with_hello[i] == *peer {
                return true;
            }
            i = i + 1;
        }
        false
    }

    /// Registers the replica at `addr`, which is not registered yet.
    fn register(&mut self, addr: PeerAddr)
        requires
            !old(self)@.contains(addr),
        ensures
            final(self)@ == old(self)@.insert(addr),
    {
        let mut taken = ReplicationLogService { replicas_with_hello: Vec::new() };
        core::mem::swap(self, &mut taken);
        proof {
            use_type_invariant(&taken);
        }
        let mut replicas = taken.replicas_with_hello;
        let ghost before = replicas@;
        replicas.push(addr);
        proof {
            assert(replicas@.last() == addr);
            assert forall|i: int, j: int|
                0 <= i < replicas@.len() && 0 <= j < replicas@.len() && i != j implies replicas@[i]
                != replicas@[j] by {
                if i < before.len() && j < before.len() {
                    assert(before[i] != before[j]);
                } else if i < before.len() {
                    assert(before.contains(before[i]));
                } else {
                    assert(before.contains(before[j]));
                }
            }
        }
        *self = ReplicationLogService { replicas_with_hello: replicas };
        proof {
            assert forall|p: PeerAddr| self@.contains(p) == old(self)@.insert(addr).contains(p) by {
                if before.contains(p) {
                    let i = choose|i: int| 0 <= i < before.len() && before[i] == p;
                    assert(replicas@[i] == p);
                }
                if replicas@.contains(p) && p != addr {
                    let i = choose|i: int| 0 <= i < replicas@.len() && replicas@[i] == p;
                    assert(before[i] == p);
                }
            }
            assert(self@ =~= old(self)@.insert(addr));
        }
    }

    /// The handshake: registers the replica at `peer` and tells it the
    /// identity of the primary. A call without an address is refused.
    pub fn hello(&mut self, logger: &ReplicationLogger, peer: Option<PeerAddr>) -> (r: Result<
        HelloResponse,
        Status,
    >)
        ensures
            match peer {
                Some(addr) => {
                    &&& final(self)@ == old(self)@.insert(addr)
                    &&& r matches Ok(response)
                    &&& response.database_id@ == id_text(logger.log_file@.header.db_id)
                    &&& response.generation_start_index == logger.generation.start_index
                    &&& response.generation_id@ == id_text(logger.generation.id)
                },
                None => {
                    &&& final(self)@ == old(self)@
                    &&& r matches Err(status)
                    &&& status.code == Code::Internal
                    &&& status.message@ == "No remote RPC address"@
                },
            },
    {
        let replica_addr = match peer {
            Some(addr) => addr,
            None => {
                return Err(
                    Status { code: Code::Internal, message: "No remote RPC address".to_owned() },
                );
            },
        };
        if !self.has_hello(&replica_addr) {
            self.register(replica_addr);
        }
        assert(self@ =~= old(self)@.insert(replica_addr));
        let response = HelloResponse {
            database_id: id_to_string(logger.database_id()),
            generation_start_index: logger.generation.start_index,
            generation_id: id_to_string(logger.generation.id),
        };
        Ok(response)
    }

    /// Opens the stream of log entries from the frame `next_offset` on for
    /// the replica at `peer`. A call without an address is refused, and so
    /// is a replica that has not greeted the primary
    /// ([`NO_HELLO_ERROR_MSG`]).
    pub fn log_entries(
        &self,
        logger: &ReplicationLogger,
        peer: Option<PeerAddr>,
        next_offset: u64,
    ) -> (r: Result<FrameStream, Status>)
        ensures
            match peer {
                Some(addr) => if self@.contains(addr) {
                    r matches Ok(stream) && stream == (FrameStream {
                        current_frame_no: next_offset,
                        max_available_frame_no: logger.new_frame_notifier,
                        closed: false,
                    })
                } else {
                    r matches Err(status) && status.code == Code::FailedPrecondition
                        && status.message@ == NO_HELLO_ERROR_MSG@
                },
                None => r matches Err(status) && status.code == Code::Internal && status.message@
                    == "No remote RPC address"@,
            },
    {
        let replica_addr = match peer {
            Some(addr) => addr,
            None => {
                return Err(
                    Status { code: Code::Internal, message: "No remote RPC address".to_owned() },
                );
            },
        };
        if !self.has_hello(&replica_addr) {
            return Err(
                Status { code: Code::FailedPrecondition, message: NO_HELLO_ERROR_MSG.to_owned() },
            );
        }
        Ok(FrameStream::new(logger, next_offset))
    }

    /// The frames of the snapshot that holds the frame `next_offset`, from
    /// that frame on. Where none of `snapshots` holds it, the snapshot is
    /// unavailable.
    pub fn snapshot(&self, snapshots: &[SnapshotFile], next_offset: u64) -> (r: Result<
        Vec<WireFrame>,
        Status,
    >)
        ensures
            none_covers(snapshots@, snapshots@.len() as int, next_offset) ==> (r matches Err(
                status,
            ) && status.code == Code::Unavailable && status.message@ == "snapshot not found"@),
            !none_covers(snapshots@, snapshots@.len() as int, next_offset) ==> (r matches Ok(
                frames,
            ) && first_covering_streamed(snapshots@, next_offset, frames@)),
    {
        let at: usize = match find_snapshot_file(snapshots, next_offset) {
            Some(at) => at,
            None => {
                return Err(
                    Status { code: Code::Unavailable, message: "snapshot not found".to_owned() },
                );
            },
        };
        let snapshot = &snapshots[at];
        let raw = snapshot.frames_iter_from(next_offset);
        let n: usize = raw.len();
        let mut frames: Vec<WireFrame> = Vec::new();
        let mut i: usize = 0;
        while i < n
            invariant
                0 <= i <= n,
                n == raw@.len(),
                frames@.len() == i,
                forall|j: int| 0 <= j < i ==> (#[trigger] frames@[j]).data@ == raw@[j]@,
            decreases n - i,
        {
            let data = vstd::slice::slice_to_vec(raw[i].as_slice());
            frames.push(WireFrame { data });
            i = i + 1;
        }
        assert(snapshot_streamed(snapshots@[at as int], next_offset, frames@));
        assert(first_covering_streamed(snapshots@, next_offset, frames@));
        Ok(frames)
    }
}

/// `frames` are the frames of `snapshot` from the one numbered `from` on,
/// in order.
pub open spec fn snapshot_streamed(snapshot: SnapshotFile, from: u64, frames: Seq<WireFrame>) -> bool {
    &&& snapshot.spec_header().covers(from)
    &&& frames.len() == frames_from(snapshot.spec_header(), from).1
    &&& forall|i: int|
        0 <= i < frames.len() ==> (#[trigger] frames[i]).data@ == snapshot_frame_at(
            snapshot@,
            frames_from(snapshot.spec_header(), from).0 + i,
        )
}

/// `frames` are the frames, from the one numbered `from` on, of the first
/// of `snapshots` that holds that frame.
pub open spec fn first_covering_streamed(
    snapshots: Seq<SnapshotFile>,
    from: u64,
    frames: Seq<WireFrame>,
) -> bool {
    exists|at: int|
        0 <= at < snapshots.len() && none_covers(snapshots, at, from) && #[trigger] snapshot_streamed(
            snapshots[at],
            from,
            frames,
        )
}

} // verus!

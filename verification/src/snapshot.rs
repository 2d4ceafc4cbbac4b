//! Snapshots: what is left of a log after its compaction.
//!
//! A snapshot file is a header followed by encoded frames with consecutive
//! numbers, the first numbered `start_frame_no`. It stands for every frame
//! up to `start_frame_no + frame_count`.

use crate::encoding::{get_u128, get_u64, put_u128, put_u64};
use crate::frame::FRAME_SIZE;
use crate::primary::log_file::LogFile;
use crate::primary::log_header::LOG_HEADER_SIZE;
use crate::primary::log_model::{frame_offset, LogFileView};
use crate::FrameNo;
use vstd::bytes::*;
use vstd::prelude::*;
use vstd::slice::{slice_subrange, slice_to_vec};

verus! {

/// Size in bytes of an encoded [`SnapshotFileHeader`].
pub const SNAPSHOT_HEADER_SIZE: usize = 32;

/// The header of a snapshot file, found at byte 0.
#[derive(Clone, Copy, Debug, PartialEq, Eq, Structural)]
pub struct SnapshotFileHeader {
    /// Number of the first frame in the snapshot.
    pub start_frame_no: u64,
    /// Number of frames in the snapshot.
    pub frame_count: u64,
    /// Identifier of the database that the snapshot was taken of.
    pub db_id: u128,
}

/// The 32 bytes that stand for a snapshot header.
pub open spec fn snapshot_header_bytes(h: SnapshotFileHeader) -> Seq<u8> {
    spec_u64_to_le_bytes(h.start_frame_no) + spec_u64_to_le_bytes(h.frame_count)
        + spec_u128_to_le_bytes(h.db_id)
}

/// The snapshot header that the first 32 bytes of `b` stand for.
pub open spec fn parse_snapshot_header(b: Seq<u8>) -> SnapshotFileHeader {
    SnapshotFileHeader {
        start_frame_no: spec_u64_from_le_bytes(b.subrange(0, 8)),
        frame_count: spec_u64_from_le_bytes(b.subrange(8, 16)),
        db_id: spec_u128_from_le_bytes(b.subrange(16, 32)),
    }
}

/// An encoded header has 32 bytes, and parsing it gives the header back.
pub proof fn lemma_snapshot_header_round_trip(h: SnapshotFileHeader)
    ensures
        snapshot_header_bytes(h).len() == SNAPSHOT_HEADER_SIZE,
        parse_snapshot_header(snapshot_header_bytes(h)) == h,
{
    lemma_auto_spec_u64_to_from_le_bytes();
    lemma_auto_spec_u128_to_from_le_bytes();
    let b = snapshot_header_bytes(h);
    assert(spec_u128_to_le_bytes(h.db_id).len() == 16);
    assert(b.subrange(0, 8) =~= spec_u64_to_le_bytes(h.start_frame_no));
    assert(b.subrange(8, 16) =~= spec_u64_to_le_bytes(h.frame_count));
    assert(b.subrange(16, 32) =~= spec_u128_to_le_bytes(h.db_id));
}

impl SnapshotFileHeader {
    /// Whether the snapshot holds the frame numbered `frame_no`.
    pub open spec fn covers(&self, frame_no: u64) -> bool {
        self.start_frame_no <= frame_no < self.start_frame_no + self.frame_count
    }

    /// Decides whether the snapshot holds the frame numbered `frame_no`.
    pub fn contains(&self, frame_no: FrameNo) -> (r: bool)
        ensures
            r == self.covers(frame_no),
    {
        frame_no >= self.start_frame_no && frame_no - self.start_frame_no < self.frame_count
    }

    /// Encodes the header as the 32 bytes that stand for it in a snapshot
    /// file.
    pub fn to_bytes(&self) -> (out: Vec<u8>)
        ensures
            out@ == snapshot_header_bytes(*self),
            out@.len() == SNAPSHOT_HEADER_SIZE,
    {
        let mut out: Vec<u8> = Vec::new();
        put_u64(&mut out, self.start_frame_no);
        put_u64(&mut out, self.frame_count);
        put_u128(&mut out, self.db_id);
        proof {
            lemma_snapshot_header_round_trip(*self);
            assert(out@ =~= snapshot_header_bytes(*self));
        }
        out
    }

    /// Decodes the header that `bytes` starts with.
    pub fn from_bytes(bytes: &[u8]) -> (h: SnapshotFileHeader)
        requires
            bytes@.len() >= SNAPSHOT_HEADER_SIZE,
        ensures
            h == parse_snapshot_header(bytes@),
    {
        SnapshotFileHeader {
            start_frame_no: get_u64(bytes, 0),
            frame_count: get_u64(bytes, 8),
            db_id: get_u128(bytes, 16),
        }
    }
}

/// Position in a snapshot file of the frame with index `nth`.
pub open spec fn snapshot_frame_offset(nth: int) -> int {
    SNAPSHOT_HEADER_SIZE + nth * FRAME_SIZE
}

/// The bytes of the frame with index `nth` of a snapshot file that holds
/// `image`.
pub open spec fn snapshot_frame_at(image: Seq<u8>, nth: int) -> Seq<u8> {
    image.subrange(snapshot_frame_offset(nth), snapshot_frame_offset(nth + 1))
}

/// Whether `image` is a snapshot file: a header, and all the frames that
/// the header counts.
pub open spec fn is_snapshot(image: Seq<u8>) -> bool {
    &&& image.len() >= SNAPSHOT_HEADER_SIZE
    &&& snapshot_frame_offset(
        parse_snapshot_header(image.subrange(0, SNAPSHOT_HEADER_SIZE as int)).frame_count as int,
    ) <= image.len()
}

/// The snapshot that a log is folded into: the committed frames of the log,
/// in order, behind a header that names the first of them and their number.
pub open spec fn snapshot_of_log(log: LogFileView) -> Seq<u8> {
    snapshot_header_bytes(
        SnapshotFileHeader {
            start_frame_no: log.header.start_frame_no,
            frame_count: log.header.frame_count,
            db_id: log.header.db_id,
        },
    ) + log.image.subrange(LOG_HEADER_SIZE as int, frame_offset(log.header.frame_count as int))
}

/// Why bytes were not taken as a snapshot file.
#[derive(Clone, Copy, Debug, PartialEq, Eq, Structural)]
pub enum SnapshotError {
    /// The file ends before its header or before the last frame that the
    /// header counts.
    Truncated,
}

/// A snapshot file, held in memory.
#[derive(Debug)]
pub struct SnapshotFile {
    bytes: Vec<u8>,
}

impl View for SnapshotFile {
    type V = Seq<u8>;

    closed spec fn view(&self) -> Seq<u8> {
        self.bytes@
    }
}

impl SnapshotFile {
    /// Every snapshot file holds its header and the frames that the header
    /// counts.
    #[verifier::type_invariant]
    spec fn complete(self) -> bool {
        is_snapshot(self.bytes@)
    }

    /// The header of the snapshot, as a specification reads it.
    pub open spec fn spec_header(&self) -> SnapshotFileHeader {
        parse_snapshot_header(self@.subrange(0, SNAPSHOT_HEADER_SIZE as int))
    }

    /// Takes `bytes` as a snapshot file, if they hold a header and all the
    /// frames that the header counts.
    pub fn open(bytes: Vec<u8>) -> (r: Result<SnapshotFile, SnapshotError>)
        ensures
            r is Ok <==> is_snapshot(bytes@),
            r matches Ok(snapshot) ==> snapshot@ == bytes@,
    {
        let len: usize = bytes.len();
        if len < SNAPSHOT_HEADER_SIZE {
            return Err(SnapshotError::Truncated);
        }
        let header = SnapshotFileHeader::from_bytes(
            slice_subrange(bytes.as_slice(), 0, SNAPSHOT_HEADER_SIZE),
        );
        if header.frame_count > ((len - SNAPSHOT_HEADER_SIZE) / FRAME_SIZE) as u64 {
            return Err(SnapshotError::Truncated);
        }
        Ok(SnapshotFile { bytes })
    }

    /// Folds the committed frames of `log` into a snapshot.
    pub fn from_log(log: &LogFile) -> (snapshot: SnapshotFile)
        requires
            log@.wf(),
        ensures
            snapshot@ == snapshot_of_log(log@),
            is_snapshot(snapshot@),
            snapshot.spec_header() == (SnapshotFileHeader {
                start_frame_no: log@.header.start_frame_no,
                frame_count: log@.header.frame_count,
                db_id: log@.header.db_id,
            }),
            forall|i: int|
                0 <= i < log@.header.frame_count ==> #[trigger] snapshot_frame_at(snapshot@, i)
                    == crate::primary::log_model::frame_at(log@.image, i),
    {
        let header = SnapshotFileHeader {
            start_frame_no: log.header().start_frame_no,
            frame_count: log.header().frame_count,
            db_id: log.header().db_id,
        };
        let mut bytes = header.to_bytes();
        let image = log.file().as_bytes();
        assert(frame_offset(log@.header.frame_count as int) <= frame_offset(log@.frame_total()))
            by (nonlinear_arith)
            requires
                log@.header.frame_count <= log@.frame_total(),
        ;
        let end: usize = LOG_HEADER_SIZE + (log.header().frame_count as usize) * FRAME_SIZE;
        let mut frames = slice_to_vec(slice_subrange(image, LOG_HEADER_SIZE, end));
        bytes.append(&mut frames);
        proof {
            lemma_snapshot_header_round_trip(header);
            assert(bytes@ =~= snapshot_of_log(log@));
            assert(bytes@.subrange(0, SNAPSHOT_HEADER_SIZE as int) =~= snapshot_header_bytes(
                header,
            ));
            assert forall|i: int| 0 <= i < log@.header.frame_count implies #[trigger] snapshot_frame_at(
                bytes@,
                i,
            ) == crate::primary::log_model::frame_at(log@.image, i) by {
                assert(frame_offset(i + 1) <= frame_offset(log@.header.frame_count as int))
                    by (nonlinear_arith)
                    requires
                        i + 1 <= log@.header.frame_count,
                ;
                assert(snapshot_frame_at(bytes@, i) =~= crate::primary::log_model::frame_at(
                    log@.image,
                    i,
                ));
            }
        }
        SnapshotFile { bytes }
    }

    /// The bytes of the snapshot file.
    pub fn as_bytes(&self) -> (bytes: &[u8])
        ensures
            bytes@ == self@,
            is_snapshot(bytes@),
    {
        proof {
            use_type_invariant(self);
        }
        self.bytes.as_slice()
    }

    /// The header of the snapshot.
    pub fn header(&self) -> (header: SnapshotFileHeader)
        ensures
            header == self.spec_header(),
            is_snapshot(self@),
    {
        proof {
            use_type_invariant(self);
        }
        SnapshotFileHeader::from_bytes(
            slice_subrange(self.bytes.as_slice(), 0, SNAPSHOT_HEADER_SIZE),
        )
    }

    /// The encoded frames of the snapshot from the one numbered `from` on,
    /// in order; all of them where `from` is older than the first, none
    /// where it is beyond the last.
    pub fn frames_iter_from(&self, from: FrameNo) -> (frames: Vec<Vec<u8>>)
        ensures
            frames@.len() == frames_from(self.spec_header(), from).1,
            forall|i: int|
                0 <= i < frames@.len() ==> (#[trigger] frames@[i])@ == snapshot_frame_at(
                    self@,
                    frames_from(self.spec_header(), from).0 + i,
                ),
    {
        let header = self.header();
        let first: u64 = if from <= header.start_frame_no {
            0
        } else if from - header.start_frame_no >= header.frame_count {
            header.frame_count
        } else {
            from - header.start_frame_no
        };
        let mut frames: Vec<Vec<u8>> = Vec::new();
        let mut nth: u64 = first;
        let size: usize = self.bytes.len();
        while nth < header.frame_count
            invariant
                is_snapshot(self@),
                size == self@.len(),
                header == self.spec_header(),
                first <= nth <= header.frame_count,
                first == frames_from(header, from).0,
                frames@.len() == nth - first,
                forall|i: int|
                    0 <= i < frames@.len() ==> (#[trigger] frames@[i])@ == snapshot_frame_at(
                        self@,
                        first + i,
                    ),
            decreases header.frame_count - nth,
        {
            assert(snapshot_frame_offset(nth + 1) <= snapshot_frame_offset(
                header.frame_count as int,
            )) by (nonlinear_arith)
                requires
                    nth + 1 <= header.frame_count,
            ;
            let start: usize = SNAPSHOT_HEADER_SIZE + (nth as usize) * FRAME_SIZE;
            let frame = slice_to_vec(
                slice_subrange(self.bytes.as_slice(), start, start + FRAME_SIZE),
            );
            frames.push(frame);
            nth = nth + 1;
        }
        frames
    }
}

/// The index of the first frame that a snapshot with the header `header`
/// gives when read from the frame numbered `from`, and the number of frames
/// that it gives.
pub open spec fn frames_from(header: SnapshotFileHeader, from: u64) -> (int, int) {
    if from <= header.start_frame_no {
        (0, header.frame_count as int)
    } else if from - header.start_frame_no >= header.frame_count {
        (header.frame_count as int, 0)
    } else {
        (from - header.start_frame_no, header.frame_count - (from - header.start_frame_no))
    }
}

/// Whether no snapshot of `snapshots` before the index `end` holds the
/// frame numbered `frame_no`.
pub open spec fn none_covers(snapshots: Seq<SnapshotFile>, end: int, frame_no: u64) -> bool {
    forall|i: int| 0 <= i < end ==> !(#[trigger] snapshots[i]).spec_header().covers(frame_no)
}

/// Finds the snapshot that holds the frame numbered `from`: gives the index
/// of the first one of `snapshots` that does, and `None` where none does.
pub fn find_snapshot_file(snapshots: &[SnapshotFile], from: FrameNo) -> (found: Option<usize>)
    ensures
        found is None <==> none_covers(snapshots@, snapshots@.len() as int, from),
        found matches Some(at) ==> at < snapshots@.len() && snapshots@[at as int].spec_header().covers(
            from,
        ) && none_covers(snapshots@, at as int, from),
{
    let n: usize = snapshots.len();
    let mut i: usize = 0;
    while i < n
        invariant
            0 <= i <= n,
            n == snapshots@.len(),
            none_covers(snapshots@, i as int, from),
        decreases n - i,
    {
        if snapshots[i].header().contains(from) {
            return Some(i);
        }
        i = i + 1;
    }
    None
}

} // verus!

//! What a log file is, as mathematics: the bytes of the file and the
//! bookkeeping beside them, the conditions that make them a log, and the
//! steps that a log takes.

use crate::checksum::{lemma_rolling_checksum_push, next_checksum, rolling_checksum};
use crate::frame::{
    frame_bytes, frame_header_of, frame_page_of, lemma_frame_round_trip, FrameHeader, FRAME_SIZE,
    PAGE_SIZE,
};
use crate::primary::log_header::{
    lemma_log_header_round_trip, log_header_bytes, parse_log_header, LogFileHeader,
    LOG_FORMAT_VERSION, LOG_HEADER_SIZE,
};
use crate::primary::version::{VERSION_MAJOR, VERSION_MINOR, VERSION_PATCH};
use crate::storage::{lemma_write_at, write_at};
use crate::{WAL_MAGIC, WAL_PAGE_SIZE};
use vstd::prelude::*;

verus! {

/// Position in the file of the frame with index `nth`.
pub open spec fn frame_offset(nth: int) -> int {
    LOG_HEADER_SIZE + nth * FRAME_SIZE
}

/// The bytes of the frame with index `nth` in a file that holds `image`.
pub open spec fn frame_at(image: Seq<u8>, nth: int) -> Seq<u8> {
    image.subrange(frame_offset(nth), frame_offset(nth + 1))
}

/// The header of the frame with index `nth`.
pub open spec fn header_at(image: Seq<u8>, nth: int) -> FrameHeader {
    frame_header_of(frame_at(image, nth))
}

/// The page image of the frame with index `nth`.
pub open spec fn page_at(image: Seq<u8>, nth: int) -> Seq<u8> {
    frame_page_of(frame_at(image, nth))
}

/// The page images of the first `n` frames, in order.
pub open spec fn pages_of(image: Seq<u8>, n: int) -> Seq<Seq<u8>> {
    Seq::new(n as nat, |i: int| page_at(image, i))
}

/// Why a frame could not be read from a log.
#[derive(Clone, Copy, Debug, PartialEq, Eq, Structural)]
pub enum LogReadError {
    /// The frame is older than the first frame of the log: it can only be
    /// had from a snapshot.
    SnapshotRequired,
    /// The frame has not been committed yet.
    Ahead,
    /// The log could not be read.
    Error(crate::error::LogError),
}

/// A log file as seen by specifications.
pub struct LogFileView {
    /// The bytes of the file.
    pub image: Seq<u8>,
    /// The header of the log, as cached in memory.
    pub header: LogFileHeader,
    /// The number of frames beyond which the log is due for compaction.
    pub max_log_frame_count: u64,
    /// The number of frames written since the last commit.
    pub uncommitted_frame_count: u64,
    /// The checksum of the last frame written.
    pub uncommitted_checksum: u64,
    /// The checksum of the last frame committed.
    pub commited_checksum: u64,
}

impl LogFileView {
    /// The number of frames written, committed or not.
    pub open spec fn frame_total(self) -> int {
        self.header.frame_count + self.uncommitted_frame_count
    }

    /// The number that the next frame written will get.
    pub open spec fn next_frame_no(self) -> int {
        self.header.start_frame_no + self.frame_total()
    }

    /// The checksum that the frame with index `nth` is chained to: that of
    /// the frame before it, or the log's start checksum for the first frame.
    pub open spec fn checksum_before(self, nth: int) -> u64 {
        if nth <= 0 {
            self.header.start_checksum
        } else {
            header_at(self.image, nth - 1).checksum
        }
    }

    /// The log is well formed: the file starts with the cached header, holds
    /// every frame that was written, and the two running checksums are those
    /// of the last committed and of the last written frame.
    pub open spec fn wf(self) -> bool {
        &&& self.header.is_valid()
        &&& self.next_frame_no() <= u64::MAX
        &&& frame_offset(self.frame_total()) <= self.image.len() <= usize::MAX
        &&& parse_log_header(self.image.subrange(0, LOG_HEADER_SIZE as int)) == self.header
        &&& self.commited_checksum == self.checksum_before(self.header.frame_count as int)
        &&& self.uncommitted_checksum == self.checksum_before(self.frame_total())
    }

    /// The frame with index `nth` has the number that its place gives it.
    pub open spec fn numbered(self, nth: int) -> bool {
        header_at(self.image, nth).frame_no == self.header.start_frame_no + nth
    }

    /// The frame with index `nth` stores the checksum of its page, chained
    /// to the frame before it.
    pub open spec fn chained(self, nth: int) -> bool {
        header_at(self.image, nth).checksum == next_checksum(
            self.checksum_before(nth),
            page_at(self.image, nth),
        )
    }

    /// The checksums of the first `n` frames form an unbroken chain.
    pub open spec fn chain_holds(self, n: int) -> bool {
        forall|i: int| 0 <= i < n ==> #[trigger] self.chained(i)
    }

    /// Every frame written has its number and its place in the checksum
    /// chain.
    pub open spec fn consistent(self) -> bool {
        &&& forall|i: int| 0 <= i < self.frame_total() ==> #[trigger] self.numbered(i)
        &&& self.chain_holds(self.frame_total())
    }

    /// The log of a file that was just created for the database `db_id`.
    pub open spec fn fresh(db_id: u128, max_log_frame_count: u64) -> LogFileView {
        let header = LogFileHeader {
            magic: WAL_MAGIC,
            start_checksum: 0,
            db_id,
            start_frame_no: 0,
            frame_count: 0,
            version: LOG_FORMAT_VERSION,
            page_size: WAL_PAGE_SIZE,
            sqld_version: [0u16, VERSION_MAJOR, VERSION_MINOR, VERSION_PATCH],
        };
        LogFileView {
            image: log_header_bytes(header),
            header,
            max_log_frame_count,
            uncommitted_frame_count: 0,
            uncommitted_checksum: 0,
            commited_checksum: 0,
        }
    }

    /// Whether the file `image` can be opened as a log: it holds a valid
    /// header and every frame that the header counts.
    pub open spec fn can_open(image: Seq<u8>) -> bool {
        &&& image.len() >= LOG_HEADER_SIZE
        &&& parse_log_header(image.subrange(0, LOG_HEADER_SIZE as int)).is_valid()
        &&& frame_offset(
            parse_log_header(image.subrange(0, LOG_HEADER_SIZE as int)).frame_count as int,
        ) <= image.len()
    }

    /// The log that opening the file `image` gives.
    pub open spec fn opened(image: Seq<u8>, max_log_frame_count: u64) -> LogFileView {
        let header = parse_log_header(image.subrange(0, LOG_HEADER_SIZE as int));
        let checksum = if header.frame_count == 0 {
            header.start_checksum
        } else {
            header_at(image, header.frame_count - 1).checksum
        };
        LogFileView {
            image,
            header,
            max_log_frame_count,
            uncommitted_frame_count: 0,
            uncommitted_checksum: checksum,
            commited_checksum: checksum,
        }
    }

    /// Whether one more frame can be written: a frame number is left for it,
    /// and the file can grow by a frame.
    pub open spec fn can_push(self) -> bool {
        &&& self.next_frame_no() < u64::MAX
        &&& frame_offset(self.frame_total() + 1) <= usize::MAX
    }

    /// The header of the frame that writing the page `data` adds.
    pub open spec fn pushed_header(self, page_no: u32, size_after: u32, data: Seq<u8>) -> FrameHeader {
        FrameHeader {
            frame_no: self.next_frame_no() as u64,
            checksum: next_checksum(self.uncommitted_checksum, data),
            page_no,
            size_after,
        }
    }

    /// The log after the page `data` is written as one more uncommitted
    /// frame.
    pub open spec fn push_page(self, page_no: u32, size_after: u32, data: Seq<u8>) -> LogFileView {
        let header = self.pushed_header(page_no, size_after, data);
        LogFileView {
            image: write_at(self.image, frame_offset(self.frame_total()), frame_bytes(header, data)),
            uncommitted_frame_count: (self.uncommitted_frame_count + 1) as u64,
            uncommitted_checksum: header.checksum,
            ..self
        }
    }

    /// Whether `n` more frames can be written: frame numbers are left for
    /// them, and the file can grow by as many frames.
    pub open spec fn can_push_all(self, n: int) -> bool {
        &&& self.next_frame_no() + n <= u64::MAX
        &&& frame_offset(self.frame_total() + n) <= usize::MAX
    }

    /// The log after `pages` are written, in order, as uncommitted frames.
    pub open spec fn push_pages(self, pages: Seq<crate::primary::log_file::PageView>) -> LogFileView
        decreases pages.len(),
    {
        if pages.len() == 0 {
            self
        } else {
            self.push_pages(pages.drop_last()).push_page(
                pages.last().page_no,
                pages.last().size_after,
                pages.last().data,
            )
        }
    }

    /// The header of the log after a commit.
    pub open spec fn committed_header(self) -> LogFileHeader {
        LogFileHeader { frame_count: self.frame_total() as u64, ..self.header }
    }

    /// The log after the frames written since the last commit are committed.
    pub open spec fn commit(self) -> LogFileView {
        LogFileView {
            image: write_at(self.image, 0, log_header_bytes(self.committed_header())),
            header: self.committed_header(),
            uncommitted_frame_count: 0,
            commited_checksum: self.uncommitted_checksum,
            ..self
        }
    }

    /// The log after the frames written since the last commit are given up.
    pub open spec fn rollback(self) -> LogFileView {
        LogFileView {
            uncommitted_frame_count: 0,
            uncommitted_checksum: self.commited_checksum,
            ..self
        }
    }

    /// What reading the frame numbered `frame_no` gives: its bytes, or the
    /// reason why the log does not hold it.
    pub open spec fn frame(self, frame_no: u64) -> Result<Seq<u8>, LogReadError> {
        if frame_no < self.header.start_frame_no {
            Err(LogReadError::SnapshotRequired)
        } else if frame_no >= self.header.start_frame_no + self.header.frame_count {
            Err(LogReadError::Ahead)
        } else {
            Ok(frame_at(self.image, frame_no - self.header.start_frame_no))
        }
    }

    /// The header of the log that takes over when this one is compacted.
    pub open spec fn compacted_header(self) -> LogFileHeader {
        LogFileHeader {
            start_frame_no: (self.header.start_frame_no + self.header.frame_count) as u64,
            frame_count: 0,
            start_checksum: self.commited_checksum,
            ..self.header
        }
    }

    /// The log that takes over when this one is compacted: it holds no
    /// frame, starts where this one ends, and chains its first frame to the
    /// last one committed here.
    pub open spec fn compacted(self) -> LogFileView {
        LogFileView {
            image: log_header_bytes(self.compacted_header()),
            header: self.compacted_header(),
            max_log_frame_count: self.max_log_frame_count,
            uncommitted_frame_count: 0,
            uncommitted_checksum: self.commited_checksum,
            commited_checksum: self.commited_checksum,
        }
    }

    /// Whether the log has outgrown its limit and is due for compaction.
    pub open spec fn should_compact(self) -> bool {
        self.header.frame_count > self.max_log_frame_count
    }
}

/// A fresh log is well formed and consistent, and holds no frame.
pub proof fn lemma_fresh_wf(db_id: u128, max_log_frame_count: u64)
    ensures
        LogFileView::fresh(db_id, max_log_frame_count).wf(),
        LogFileView::fresh(db_id, max_log_frame_count).consistent(),
        LogFileView::fresh(db_id, max_log_frame_count).image.len() == LOG_HEADER_SIZE,
{
    let v = LogFileView::fresh(db_id, max_log_frame_count);
    lemma_log_header_round_trip(v.header);
    assert(v.image.subrange(0, LOG_HEADER_SIZE as int) =~= v.image);
}

/// Frames below the one being written are not touched by the write.
proof fn lemma_write_keeps_frames(image: Seq<u8>, at: int, data: Seq<u8>, nth: int)
    requires
        0 <= nth < at,
        frame_offset(at) <= image.len(),
    ensures
        frame_at(write_at(image, frame_offset(at), data), nth) == frame_at(image, nth),
        image.subrange(0, LOG_HEADER_SIZE as int) == write_at(
            image,
            frame_offset(at),
            data,
        ).subrange(0, LOG_HEADER_SIZE as int),
{
    lemma_write_at(image, frame_offset(at), data);
    assert(frame_offset(nth + 1) <= frame_offset(at)) by (nonlinear_arith)
        requires
            nth + 1 <= at,
    ;
    assert(0 <= frame_offset(nth)) by (nonlinear_arith)
        requires
            0 <= nth,
    ;
}

/// Writing a page keeps a log well formed, and consistent if it was; the
/// new frame is the last one, with the header and the page that were
/// written.
pub proof fn lemma_push_page(v: LogFileView, page_no: u32, size_after: u32, data: Seq<u8>)
    requires
        v.wf(),
        v.can_push(),
        data.len() == PAGE_SIZE,
    ensures
        v.push_page(page_no, size_after, data).wf(),
        v.consistent() ==> v.push_page(page_no, size_after, data).consistent(),
        frame_at(v.push_page(page_no, size_after, data).image, v.frame_total()) == frame_bytes(
            v.pushed_header(page_no, size_after, data),
            data,
        ),
        forall|i: int|
            0 <= i < v.frame_total() ==> #[trigger] frame_at(
                v.push_page(page_no, size_after, data).image,
                i,
            ) == frame_at(v.image, i),
{
    let w = v.push_page(page_no, size_after, data);
    let total = v.frame_total();
    let header = v.pushed_header(page_no, size_after, data);
    let fb = frame_bytes(header, data);
    lemma_frame_round_trip(header, data);
    lemma_write_at(v.image, frame_offset(total), fb);
    assert(frame_offset(total + 1) == frame_offset(total) + FRAME_SIZE);
    assert(frame_at(w.image, total) == fb);
    assert forall|i: int| 0 <= i < total implies #[trigger] frame_at(w.image, i) == frame_at(
        v.image,
        i,
    ) by {
        lemma_write_keeps_frames(v.image, total, fb, i);
    }
    if total > 0 {
        lemma_write_keeps_frames(v.image, total, fb, total - 1);
    } else {
        assert(w.image.subrange(0, LOG_HEADER_SIZE as int) == v.image.subrange(
            0,
            LOG_HEADER_SIZE as int,
        ));
    }
    if v.header.frame_count > 0 {
        lemma_write_keeps_frames(v.image, total, fb, v.header.frame_count - 1);
    }
    assert(w.wf());
    if v.consistent() {
        assert forall|i: int| 0 <= i < w.frame_total() implies #[trigger] w.numbered(i) by {
            if i < total {
                assert(v.numbered(i));
            }
        }
        assert forall|i: int| 0 <= i < w.frame_total() implies #[trigger] w.chained(i) by {
            if i < total {
                assert(v.chained(i));
                if i > 0 {
                    assert(frame_at(w.image, i - 1) == frame_at(v.image, i - 1));
                }
            }
        }
    }
}

/// Writing pages one after the other keeps a log well formed, and
/// consistent if it was. The committed frames are not touched, and every
/// page written is one more uncommitted frame.
pub proof fn lemma_push_pages(v: LogFileView, pages: Seq<crate::primary::log_file::PageView>)
    requires
        v.wf(),
        v.can_push_all(pages.len() as int),
        crate::primary::log_file::pages_sized(pages),
    ensures
        v.push_pages(pages).wf(),
        v.consistent() ==> v.push_pages(pages).consistent(),
        v.push_pages(pages).header == v.header,
        v.push_pages(pages).max_log_frame_count == v.max_log_frame_count,
        v.push_pages(pages).commited_checksum == v.commited_checksum,
        v.push_pages(pages).uncommitted_frame_count == v.uncommitted_frame_count + pages.len(),
        forall|i: int|
            0 <= i < v.frame_total() ==> #[trigger] frame_at(v.push_pages(pages).image, i)
                == frame_at(v.image, i),
    decreases pages.len(),
{
    if pages.len() > 0 {
        let before = v.push_pages(pages.drop_last());
        let last = pages.last();
        lemma_push_pages(v, pages.drop_last());
        lemma_push_page(before, last.page_no, last.size_after, last.data);
        let after = v.push_pages(pages);
        assert forall|i: int| 0 <= i < v.frame_total() implies #[trigger] frame_at(after.image, i)
            == frame_at(v.image, i) by {
            assert(frame_at(after.image, i) == frame_at(before.image, i));
        }
    }
}

/// Writing one more page after a run of pages is writing the longer run.
pub proof fn lemma_push_pages_step(
    v: LogFileView,
    pages: Seq<crate::primary::log_file::PageView>,
    n: int,
)
    requires
        0 <= n < pages.len(),
    ensures
        v.push_pages(pages.take(n + 1)) == v.push_pages(pages.take(n)).push_page(
            pages[n].page_no,
            pages[n].size_after,
            pages[n].data,
        ),
{
    assert(pages.take(n + 1).drop_last() =~= pages.take(n));
}

/// Frames are not touched when the header is written again.
proof fn lemma_header_write_keeps_frames(image: Seq<u8>, header_bytes: Seq<u8>, nth: int)
    requires
        0 <= nth,
        header_bytes.len() == LOG_HEADER_SIZE,
        frame_offset(nth + 1) <= image.len(),
    ensures
        frame_at(write_at(image, 0, header_bytes), nth) == frame_at(image, nth),
        write_at(image, 0, header_bytes).len() == image.len(),
        write_at(image, 0, header_bytes).subrange(0, LOG_HEADER_SIZE as int) == header_bytes,
{
    lemma_write_at(image, 0, header_bytes);
    assert(LOG_HEADER_SIZE <= frame_offset(nth) <= frame_offset(nth + 1)) by (nonlinear_arith)
        requires
            0 <= nth,
    ;
}

/// A commit keeps a log well formed, and consistent if it was; it touches
/// no frame, and makes every frame written a committed one.
pub proof fn lemma_commit(v: LogFileView)
    requires
        v.wf(),
    ensures
        v.commit().wf(),
        v.consistent() ==> v.commit().consistent(),
        v.commit().header.frame_count == v.frame_total(),
        v.commit().image.len() == v.image.len(),
        forall|i: int|
            0 <= i < v.frame_total() ==> #[trigger] frame_at(v.commit().image, i) == frame_at(
                v.image,
                i,
            ),
{
    let w = v.commit();
    let hb = log_header_bytes(w.header);
    lemma_log_header_round_trip(w.header);
    lemma_write_at(v.image, 0, hb);
    assert forall|i: int| 0 <= i < v.frame_total() implies #[trigger] frame_at(w.image, i)
        == frame_at(v.image, i) by {
        assert(frame_offset(i + 1) <= frame_offset(v.frame_total())) by (nonlinear_arith)
            requires
                i + 1 <= v.frame_total(),
        ;
        lemma_header_write_keeps_frames(v.image, hb, i);
    }
    if v.frame_total() > 0 {
        assert(frame_at(w.image, v.frame_total() - 1) == frame_at(v.image, v.frame_total() - 1));
    }
    assert(w.wf());
    if v.consistent() {
        assert forall|i: int| 0 <= i < w.frame_total() implies #[trigger] w.numbered(i) by {
            assert(v.numbered(i));
        }
        assert forall|i: int| 0 <= i < w.frame_total() implies #[trigger] w.chained(i) by {
            assert(v.chained(i));
            if i > 0 {
                assert(frame_at(w.image, i - 1) == frame_at(v.image, i - 1));
            }
        }
    }
}

/// A rollback keeps a log well formed, and consistent if it was; it changes
/// neither the file nor the number of committed frames.
pub proof fn lemma_rollback(v: LogFileView)
    requires
        v.wf(),
    ensures
        v.rollback().wf(),
        v.consistent() ==> v.rollback().consistent(),
        v.rollback().image == v.image,
        v.rollback().header == v.header,
        v.rollback().uncommitted_frame_count == 0,
{
    let w = v.rollback();
    if v.consistent() {
        assert forall|i: int| 0 <= i < w.frame_total() implies #[trigger] w.numbered(i) by {
            assert(v.numbered(i));
        }
        assert forall|i: int| 0 <= i < w.frame_total() implies #[trigger] w.chained(i) by {
            assert(v.chained(i));
        }
    }
}

/// The log that takes over at a compaction is well formed and consistent,
/// and starts where the compacted one ends.
pub proof fn lemma_compacted(v: LogFileView)
    requires
        v.wf(),
    ensures
        v.compacted().wf(),
        v.compacted().consistent(),
        v.compacted().header.start_frame_no == v.header.start_frame_no + v.header.frame_count,
        v.compacted().header.frame_count == 0,
        v.compacted().header.start_checksum == v.commited_checksum,
        v.compacted().image.len() == LOG_HEADER_SIZE,
{
    let w = v.compacted();
    lemma_log_header_round_trip(w.header);
    assert(w.image.subrange(0, LOG_HEADER_SIZE as int) =~= w.image);
}

/// Where the checksums of the first `n` frames form a chain, folding their
/// pages in order into the start checksum gives the checksum that frame `n`
/// is chained to: for `n > 0`, the one stored in frame `n - 1`.
pub proof fn lemma_chain_is_rolling_checksum(v: LogFileView, n: int)
    requires
        0 <= n,
        v.chain_holds(n),
    ensures
        rolling_checksum(v.header.start_checksum, pages_of(v.image, n)) == v.checksum_before(n),
    decreases n,
{
    if n == 0 {
        assert(pages_of(v.image, 0) =~= Seq::<Seq<u8>>::empty());
    } else {
        assert forall|i: int| 0 <= i < n - 1 implies #[trigger] v.chained(i) by {}
        lemma_chain_is_rolling_checksum(v, n - 1);
        assert(pages_of(v.image, n) =~= pages_of(v.image, n - 1).push(page_at(v.image, n - 1)));
        lemma_rolling_checksum_push(
            v.header.start_checksum,
            pages_of(v.image, n - 1),
            page_at(v.image, n - 1),
        );
        assert(v.chained(n - 1));
    }
}

} // verus!

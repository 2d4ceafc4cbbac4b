//! What holds of every log, whatever was done to it.
//!
//! The laws speak of the logs that can be reached: a fresh log, and what a
//! reachable log becomes when a page is written, when it is committed,
//! rolled back or compacted.

use crate::checksum::rolling_checksum;
use crate::frame::{frame_bytes, frame_header_of, PAGE_SIZE};
use crate::primary::log_file::{pages_sized, PageView};
use crate::primary::log_header::{parse_log_header, LOG_HEADER_SIZE};
use crate::primary::log_model::{
    frame_at, frame_offset, header_at, lemma_chain_is_rolling_checksum, lemma_commit,
    lemma_compacted, lemma_fresh_wf, lemma_push_page, lemma_push_pages, lemma_rollback, page_at,
    pages_of, LogFileView, LogReadError,
};
use crate::storage::write_at;
use vstd::prelude::*;

verus! {

/// One thing that is done to a log.
pub enum LogOp {
    /// A page is written, uncommitted. Where the log cannot take it, or the
    /// page has not the size of a page, nothing happens.
    PushPage(PageView),
    /// What was written is committed.
    Commit,
    /// What was written since the last commit is given up.
    Rollback,
    /// The log is retired, and a new one takes over.
    Compact,
}

/// The log `v` after `op`.
pub open spec fn step(v: LogFileView, op: LogOp) -> LogFileView {
    match op {
        LogOp::PushPage(page) => if v.can_push() && page.data.len() == PAGE_SIZE {
            v.push_page(page.page_no, page.size_after, page.data)
        } else {
            v
        },
        LogOp::Commit => v.commit(),
        LogOp::Rollback => v.rollback(),
        LogOp::Compact => v.compacted(),
    }
}

/// The log `v` after `ops`, one after the other.
pub open spec fn run(v: LogFileView, ops: Seq<LogOp>) -> LogFileView
    decreases ops.len(),
{
    if ops.len() == 0 {
        v
    } else {
        step(run(v, ops.drop_last()), ops.last())
    }
}

/// The log that is reached from a fresh one by `ops`.
pub open spec fn reached(db_id: u128, max_log_frame_count: u64, ops: Seq<LogOp>) -> LogFileView {
    run(LogFileView::fresh(db_id, max_log_frame_count), ops)
}

/// A well-formed and consistent log stays so, whatever is done to it.
pub proof fn lemma_run_keeps_consistent(v: LogFileView, ops: Seq<LogOp>)
    requires
        v.wf(),
        v.consistent(),
    ensures
        run(v, ops).wf(),
        run(v, ops).consistent(),
    decreases ops.len(),
{
    if ops.len() > 0 {
        lemma_run_keeps_consistent(v, ops.drop_last());
        let before = run(v, ops.drop_last());
        match ops.last() {
            LogOp::PushPage(page) => {
                if before.can_push() && page.data.len() == PAGE_SIZE {
                    lemma_push_page(before, page.page_no, page.size_after, page.data);
                }
            },
            LogOp::Commit => {
                lemma_commit(before);
            },
            LogOp::Rollback => {
                lemma_rollback(before);
            },
            LogOp::Compact => {
                lemma_compacted(before);
            },
        }
    }
}

/// Every log that can be reached is well formed and consistent.
pub proof fn lemma_reached_consistent(db_id: u128, max_log_frame_count: u64, ops: Seq<LogOp>)
    ensures
        reached(db_id, max_log_frame_count, ops).wf(),
        reached(db_id, max_log_frame_count, ops).consistent(),
{
    lemma_fresh_wf(db_id, max_log_frame_count);
    lemma_run_keeps_consistent(LogFileView::fresh(db_id, max_log_frame_count), ops);
}

/// In a well-formed and consistent log, folding the pages of the committed
/// frames, in order, into the start checksum of the log gives the checksum
/// that the log holds as the committed one; where the log holds a committed
/// frame, that is the checksum stored in the last of them.
pub proof fn lemma_committed_checksum(v: LogFileView)
    requires
        v.wf(),
        v.consistent(),
    ensures
        rolling_checksum(v.header.start_checksum, pages_of(v.image, v.header.frame_count as int))
            == v.commited_checksum,
        v.header.frame_count > 0 ==> v.commited_checksum == header_at(
            v.image,
            v.header.frame_count - 1,
        ).checksum,
{
    assert forall|i: int| 0 <= i < v.header.frame_count implies #[trigger] v.chained(i) by {}
    lemma_chain_is_rolling_checksum(v, v.header.frame_count as int);
}

/// Checksum chain integrity: in every log that can be reached, folding the
/// pages of the committed frames, in order, into the start checksum of the
/// log gives the checksum stored in the last committed frame.
pub proof fn lemma_checksum_chain_integrity(db_id: u128, max_log_frame_count: u64, ops: Seq<LogOp>)
    ensures
        ({
            let v = reached(db_id, max_log_frame_count, ops);
            &&& rolling_checksum(
                v.header.start_checksum,
                pages_of(v.image, v.header.frame_count as int),
            ) == v.commited_checksum
            &&& v.header.frame_count > 0 ==> v.commited_checksum == header_at(
                v.image,
                v.header.frame_count - 1,
            ).checksum
        }),
{
    lemma_reached_consistent(db_id, max_log_frame_count, ops);
    lemma_committed_checksum(reached(db_id, max_log_frame_count, ops));
}

/// Reading gave a frame, and the frame carries the number `frame_no`.
pub open spec fn reads_numbered(read: Result<Seq<u8>, LogReadError>, frame_no: u64) -> bool {
    match read {
        Ok(bytes) => frame_header_of(bytes).frame_no == frame_no,
        Err(_) => false,
    }
}

/// Monotonic frame numbering: in every log that can be reached, the frame
/// with index `i` carries the number `start_frame_no + i`, and reading the
/// frame of any number in the log gives the frame that carries this number.
/// The log that takes over at a compaction starts at the number after the
/// last committed frame: `start_frame_no + frame_count` of the retired log.
pub proof fn lemma_frame_numbering(db_id: u128, max_log_frame_count: u64, ops: Seq<LogOp>)
    ensures
        ({
            let v = reached(db_id, max_log_frame_count, ops);
            &&& forall|i: int|
                0 <= i < v.frame_total() ==> (#[trigger] header_at(v.image, i)).frame_no
                    == v.header.start_frame_no + i
            &&& forall|frame_no: u64|
                v.header.start_frame_no <= frame_no < v.header.start_frame_no
                    + v.header.frame_count ==> reads_numbered(#[trigger] v.frame(frame_no), frame_no)
            &&& v.compacted().header.start_frame_no == v.header.start_frame_no
                + v.header.frame_count
            &&& v.compacted().header.frame_count == 0
        }),
{
    let v = reached(db_id, max_log_frame_count, ops);
    lemma_reached_consistent(db_id, max_log_frame_count, ops);
    lemma_compacted(v);
    assert forall|i: int| 0 <= i < v.frame_total() implies (#[trigger] header_at(
        v.image,
        i,
    )).frame_no == v.header.start_frame_no + i by {
        assert(v.numbered(i));
    }
    assert forall|frame_no: u64|
        v.header.start_frame_no <= frame_no < v.header.start_frame_no
            + v.header.frame_count implies reads_numbered(#[trigger] v.frame(frame_no), frame_no) by {
        assert(v.numbered(frame_no - v.header.start_frame_no));
    }
}

/// Rollback isolation: after pages are written to a log and rolled back,
/// the log counts as many committed frames as before, and they are the same
/// frames; reading the frame of any number from the end of the log on fails
/// with [`LogReadError::Ahead`]; and the next page written becomes the frame
/// right after the last committed one, in the place of what was rolled
/// back.
pub proof fn lemma_rollback_isolation(v: LogFileView, pages: Seq<PageView>, next: PageView)
    requires
        v.wf(),
        v.can_push_all(pages.len() as int),
        pages_sized(pages),
        next.data.len() == PAGE_SIZE,
        v.push_pages(pages).rollback().can_push(),
    ensures
        ({
            let rolled_back = v.push_pages(pages).rollback();
            let count = v.header.frame_count as int;
            let after = rolled_back.push_page(next.page_no, next.size_after, next.data);
            &&& rolled_back.wf()
            &&& rolled_back.header == v.header
            &&& rolled_back.uncommitted_frame_count == 0
            &&& rolled_back.uncommitted_checksum == v.commited_checksum
            &&& forall|i: int|
                0 <= i < count ==> #[trigger] frame_at(rolled_back.image, i) == frame_at(
                    v.image,
                    i,
                )
            &&& forall|frame_no: u64|
                frame_no >= v.header.start_frame_no + count ==> #[trigger] rolled_back.frame(
                    frame_no,
                ) == Err::<Seq<u8>, LogReadError>(LogReadError::Ahead)
            &&& after.image == write_at(
                rolled_back.image,
                frame_offset(count),
                frame_bytes(
                    rolled_back.pushed_header(next.page_no, next.size_after, next.data),
                    next.data,
                ),
            )
            &&& header_at(after.image, count).frame_no == v.header.start_frame_no + count
            &&& header_at(after.image, count).page_no == next.page_no
            &&& page_at(after.image, count) == next.data
        }),
{
    let written = v.push_pages(pages);
    lemma_push_pages(v, pages);
    lemma_rollback(written);
    let rolled_back = written.rollback();
    let count = v.header.frame_count as int;
    lemma_push_page(rolled_back, next.page_no, next.size_after, next.data);
    crate::frame::lemma_frame_round_trip(
        rolled_back.pushed_header(next.page_no, next.size_after, next.data),
        next.data,
    );
    assert forall|i: int| 0 <= i < count implies #[trigger] frame_at(rolled_back.image, i)
        == frame_at(v.image, i) by {
        assert(frame_at(written.image, i) == frame_at(v.image, i));
    }
}

/// The committed part of a log is whole: the header in the file is the one
/// that the log holds, the file holds every frame that the header counts,
/// and these frames carry consecutive numbers and an unbroken chain of
/// checksums.
pub open spec fn committed_intact(v: LogFileView) -> bool {
    &&& v.image.len() >= LOG_HEADER_SIZE
    &&& parse_log_header(v.image.subrange(0, LOG_HEADER_SIZE as int)) == v.header
    &&& frame_offset(v.header.frame_count as int) <= v.image.len()
    &&& forall|i: int| 0 <= i < v.header.frame_count ==> #[trigger] v.numbered(i)
    &&& v.chain_holds(v.header.frame_count as int)
}

/// Commit atomicity: whatever was done to a log, and at whatever point
/// between two operations the file is read, the frame count found in its
/// header counts frames that are fully written, with consecutive numbers
/// and an unbroken chain of checksums.
pub proof fn lemma_commit_atomicity(db_id: u128, max_log_frame_count: u64, ops: Seq<LogOp>)
    ensures
        committed_intact(reached(db_id, max_log_frame_count, ops)),
{
    let v = reached(db_id, max_log_frame_count, ops);
    lemma_reached_consistent(db_id, max_log_frame_count, ops);
    assert(frame_offset(v.header.frame_count as int) <= frame_offset(v.frame_total()))
        by (nonlinear_arith)
        requires
            v.header.frame_count <= v.frame_total(),
    ;
    assert forall|i: int| 0 <= i < v.header.frame_count implies #[trigger] v.numbered(i) by {}
    assert forall|i: int| 0 <= i < v.header.frame_count implies #[trigger] v.chained(i) by {}
}

} // verus!

//! The replication logger: the bridge between the database engine, which
//! hands over the pages of each transaction, and the log file.

use crate::checksum::{page_checksum, rolling_checksum};
use crate::error::LogError;
use crate::frame::{Frame, PAGE_SIZE};
use crate::ids::{is_random_id, random_id};
use crate::primary::log_file::{page_views, pages_sized, LogFile, WalPage};
use crate::primary::log_header::{LogFileHeader, LOG_FORMAT_VERSION};
use crate::primary::log_model::{
    frame_at, frame_offset, header_at, lemma_chain_is_rolling_checksum, lemma_push_pages_step,
    page_at, pages_of, LogFileView, LogReadError,
};
use crate::primary::version::{lemma_version_eq, Version};
use crate::storage::FileImage;
use crate::FrameNo;
use vstd::prelude::*;
use vstd::slice::slice_to_vec;

verus! {

/// An unbroken history of frames. A primary starts a new generation each
/// time it opens or recovers a log.
#[derive(Clone, Copy, Debug)]
pub struct Generation {
    /// Identifier of the generation.
    pub id: u128,
    /// Number of the first frame of the generation.
    pub start_index: u64,
}

impl Generation {
    /// A generation that starts at `start_index`, with a new random
    /// identifier.
    pub fn new(start_index: u64) -> (generation: Generation)
        ensures
            generation.start_index == start_index,
            is_random_id(generation.id),
    {
        Generation { id: random_id(), start_index }
    }
}

/// The logger of a primary: its log file, the generation that it opened the
/// log for, and the number of the next frame as last announced to those who
/// wait for frames.
#[derive(Debug)]
pub struct ReplicationLogger {
    /// The generation that began when the log was opened.
    pub generation: Generation,
    /// The log file.
    pub log_file: LogFile,
    /// The latest frame number announced. It is a single slot: a new value
    /// replaces the one before it, read or not.
    pub new_frame_notifier: FrameNo,
}

/// What opening a log led to.
#[derive(Debug)]
pub enum OpenOutcome {
    /// The log is in use as it was found.
    Ready(ReplicationLogger),
    /// The log cannot be used as it is: it has to be written again from the
    /// database file, by [`ReplicationLogger::recover`].
    Recover(LogFile),
}

/// The number of frames that a log of at most `max_log_size` megabytes
/// holds, or the largest number there is where it holds more.
pub open spec fn frame_limit(max_log_size: u64) -> u64 {
    if max_log_size * 1_000_000 / 4120 > u64::MAX {
        u64::MAX
    } else {
        (max_log_size * 1_000_000 / 4120) as u64
    }
}

/// Whether a log with the header `header` has to be written again from the
/// database file: it is marked dirty, it has another format or was written
/// by another version of the software, or it was just created beside a
/// database file that exists.
pub open spec fn should_recover(
    header: LogFileHeader,
    dirty: bool,
    fresh: bool,
    data_exists: bool,
) -> bool {
    ||| dirty
    ||| header.version < LOG_FORMAT_VERSION
    ||| header.sqld_version@ != seq![
        0u16,
        crate::primary::version::VERSION_MAJOR,
        crate::primary::version::VERSION_MINOR,
        crate::primary::version::VERSION_PATCH,
    ]
    ||| (fresh && data_exists)
}

/// The log that recovery has written after the first `n` pages of a
/// database file that holds `data`: a fresh log for the database `db_id`
/// to which each page was written and committed, in order, as the frame of
/// the page numbered from 1; the frame of the last page of the file carries
/// the number of pages as the size of the database.
pub open spec fn recovered(db_id: u128, max_log_frame_count: u64, data: Seq<u8>, n: int) -> LogFileView
    decreases n,
{
    if n <= 0 {
        LogFileView::fresh(db_id, max_log_frame_count)
    } else {
        recovered(db_id, max_log_frame_count, data, n - 1).push_page(
            n as u32,
            if n == data.len() as int / PAGE_SIZE as int {
                n as u32
            } else {
                0u32
            },
            data.subrange((n - 1) * PAGE_SIZE, n * PAGE_SIZE),
        ).commit()
    }
}

/// The frame with index `i` of the log `log` is the one that recovery
/// writes for the page with index `i` of a database file that holds `data`:
/// it holds that page under its number, counted from 1, and carries the
/// number of pages as the size of the database if the page is the last.
pub open spec fn recovered_frame(log: LogFileView, data: Seq<u8>, i: int) -> bool {
    let num_pages = data.len() as int / PAGE_SIZE as int;
    &&& header_at(log.image, i).page_no == i + 1
    &&& header_at(log.image, i).size_after == if i == num_pages - 1 {
        num_pages as u32
    } else {
        0u32
    }
    &&& page_at(log.image, i) == data.subrange(i * PAGE_SIZE, (i + 1) * PAGE_SIZE)
}

/// What holds of the log that recovery has written after the first `n`
/// pages of a database file that holds `data`: it is well formed and
/// consistent, and holds one committed frame for each of these pages,
/// numbered from 0.
pub open spec fn is_recovered_to(log: LogFileView, data: Seq<u8>, n: int) -> bool {
    &&& log.wf()
    &&& log.consistent()
    &&& log.header.start_frame_no == 0
    &&& log.header.start_checksum == 0
    &&& log.header.frame_count == n
    &&& log.uncommitted_frame_count == 0
    &&& forall|i: int| 0 <= i < n ==> #[trigger] recovered_frame(log, data, i)
}

/// What holds of the log that recovery writes for a database file that
/// holds `data`: one committed frame for each page, numbered from 0, with
/// page numbers from 1; the last frame carries the number of pages as the
/// size of the database.
pub open spec fn is_recovered(log: LogFileView, data: Seq<u8>) -> bool {
    is_recovered_to(log, data, data.len() as int / PAGE_SIZE as int)
}

/// The log that recovery has written after `n` pages holds these pages as
/// its frames; it has the identifier and the limit that it began with.
pub proof fn lemma_recovered(db_id: u128, max_log_frame_count: u64, data: Seq<u8>, n: int)
    requires
        0 <= n <= data.len() as int / PAGE_SIZE as int <= u32::MAX,
        frame_offset(n) <= usize::MAX,
    ensures
        is_recovered_to(recovered(db_id, max_log_frame_count, data, n), data, n),
        recovered(db_id, max_log_frame_count, data, n).header.db_id == db_id,
        recovered(db_id, max_log_frame_count, data, n).max_log_frame_count == max_log_frame_count,
    decreases n,
{
    if n == 0 {
        crate::primary::log_model::lemma_fresh_wf(db_id, max_log_frame_count);
    } else {
        let prev = recovered(db_id, max_log_frame_count, data, n - 1);
        lemma_recovered(db_id, max_log_frame_count, data, n - 1);
        let page_no = n as u32;
        let size_after = if n == data.len() as int / PAGE_SIZE as int {
            n as u32
        } else {
            0u32
        };
        let page = data.subrange((n - 1) * PAGE_SIZE, n * PAGE_SIZE);
        assert(n * PAGE_SIZE <= data.len()) by (nonlinear_arith)
            requires
                n <= data.len() as int / PAGE_SIZE as int,
                PAGE_SIZE == 4096,
        ;
        assert(page.len() == PAGE_SIZE);
        assert(prev.can_push());
        crate::primary::log_model::lemma_push_page(prev, page_no, size_after, page);
        let mid = prev.push_page(page_no, size_after, page);
        crate::primary::log_model::lemma_commit(mid);
        crate::frame::lemma_frame_round_trip(prev.pushed_header(page_no, size_after, page), page);
        let log = mid.commit();
        assert(log == recovered(db_id, max_log_frame_count, data, n));
        assert forall|i: int| 0 <= i < n implies #[trigger] recovered_frame(log, data, i) by {
            assert(frame_at(log.image, i) == frame_at(mid.image, i));
            if i < n - 1 {
                assert(frame_at(mid.image, i) == frame_at(prev.image, i));
                assert(recovered_frame(prev, data, i));
            }
        }
    }
}

/// Whether a log can be written again from a database file that holds
/// `data`: the pages of the file can be numbered, and a log file can hold a
/// frame for each of them.
pub open spec fn can_recover(data: Seq<u8>) -> bool {
    &&& data.len() as int / PAGE_SIZE as int <= u32::MAX
    &&& frame_offset(data.len() as int / PAGE_SIZE as int) <= usize::MAX
}

/// The recovery scenario. A log that was just created beside a database
/// file that exists is recovered, dirty or not. Where the database file
/// holds `data`, a whole number of pages, and recovery succeeds, the log
/// that it writes starts at frame 0 and holds exactly one committed frame
/// for each page and none uncommitted: reading the frame `i` gives the page
/// `i` of the file under the page number `i + 1`, and reading the frame
/// after the last fails with [`LogReadError::Ahead`]. The last frame carries
/// the number of pages as the size of the database, and every frame before
/// it carries 0: the log holds one transaction.
pub proof fn lemma_recovery_scenario(
    header: LogFileHeader,
    dirty: bool,
    db_id: u128,
    max_log_frame_count: u64,
    data: Seq<u8>,
)
    requires
        data.len() % PAGE_SIZE as nat == 0,
        can_recover(data),
    ensures
        should_recover(header, dirty, true, true),
        ({
            let n = data.len() as int / PAGE_SIZE as int;
            let log = recovered(db_id, max_log_frame_count, data, n);
            &&& log.header.start_frame_no == 0
            &&& log.header.frame_count == n
            &&& log.uncommitted_frame_count == 0
            &&& log.frame(n as u64) == Err::<Seq<u8>, LogReadError>(LogReadError::Ahead)
            &&& forall|i: int|
                0 <= i < n ==> recovered_read(#[trigger] log.frame(i as u64), data, i)
        }),
{
    let n = data.len() as int / PAGE_SIZE as int;
    let log = recovered(db_id, max_log_frame_count, data, n);
    lemma_recovered(db_id, max_log_frame_count, data, n);
    assert forall|i: int| 0 <= i < n implies recovered_read(
        #[trigger] log.frame(i as u64),
        data,
        i,
    ) by {
        assert(recovered_frame(log, data, i));
        assert(log.numbered(i));
    }
}

/// Reading the frame `i` of a recovered log gave the frame that holds the
/// page `i` of a database file that holds `data`: it carries the frame
/// number `i` and the page number `i + 1`, and the number of pages as the
/// size of the database if it is the last frame, 0 if it is not.
pub open spec fn recovered_read(read: Result<Seq<u8>, LogReadError>, data: Seq<u8>, i: int) -> bool {
    let n = data.len() as int / PAGE_SIZE as int;
    match read {
        Ok(bytes) => {
            &&& crate::frame::frame_header_of(bytes).frame_no == i
            &&& crate::frame::frame_header_of(bytes).page_no == i + 1
            &&& crate::frame::frame_header_of(bytes).size_after == if i == n - 1 {
                n as u32
            } else {
                0u32
            }
            &&& crate::frame::frame_page_of(bytes) == data.subrange(
                i * PAGE_SIZE,
                (i + 1) * PAGE_SIZE,
            )
        },
        Err(_) => false,
    }
}

impl ReplicationLogger {
    /// The logger is well formed when its log file is.
    pub open spec fn wf(&self) -> bool {
        self.log_file@.wf()
    }

    /// The number of frames that a log of at most `max_log_size` megabytes
    /// holds: the size in bytes divided by the size of a frame. A size that
    /// holds more frames than there are frame numbers limits nothing.
    pub fn max_log_frame_count(max_log_size: u64) -> (count: u64)
        ensures
            count == frame_limit(max_log_size),
    {
        let bytes: u128 = (max_log_size as u128) * 1_000_000;
        let frames: u128 = bytes / 4120;
        if frames > u64::MAX as u128 {
            u64::MAX
        } else {
            frames as u64
        }
    }

    /// Decides whether the log that was opened has to be recovered.
    pub fn needs_recovery(header: &LogFileHeader, dirty: bool, fresh: bool, data_exists: bool) -> (r:
        bool)
        ensures
            r == should_recover(*header, dirty, fresh, data_exists),
    {
        let current = Version::current();
        proof {
            lemma_version_eq(Version(header.sqld_version), current);
            if header.sqld_version@ == current.0@ {
                assert(header.sqld_version@ =~= current.0@);
                assert(header.sqld_version == current.0);
            }
        }
        if dirty {
            true
        } else if header.version < LOG_FORMAT_VERSION || header.sqld_version() != current {
            true
        } else if fresh && data_exists {
            true
        } else {
            false
        }
    }

    /// Opens the log kept in `file`, of at most `max_log_size` megabytes.
    /// `fresh` says that the file was just created, `data_exists` that a
    /// database file lies beside it, and `dirty` that the log is known not
    /// to match the database.
    ///
    /// Gives the logger, or the log file to recover where
    /// [`should_recover`] holds. Fails as [`LogFile::new`] does.
    pub fn open(
        file: FileImage,
        max_log_size: u64,
        dirty: bool,
        fresh: bool,
        data_exists: bool,
    ) -> (r: Result<OpenOutcome, LogError>)
        ensures
            file@.len() != 0 ==> (r is Ok <==> LogFileView::can_open(file@)),
            file@.len() == 0 ==> r is Ok,
            r matches Err(e) ==> e == crate::primary::log_file::open_error(file@),
            r matches Ok(OpenOutcome::Ready(logger)) ==> {
                &&& logger.wf()
                &&& !should_recover(logger.log_file@.header, dirty, fresh, data_exists)
                &&& opened_log(file@, frame_limit(max_log_size), logger.log_file@)
                &&& logger.opened_at(logger.log_file@)
                &&& is_random_id(logger.generation.id)
            },
            r matches Ok(OpenOutcome::Recover(log)) ==> {
                &&& log@.wf()
                &&& should_recover(log@.header, dirty, fresh, data_exists)
                &&& opened_log(file@, frame_limit(max_log_size), log@)
            },
    {
        let max_log_frame_count: u64 = ReplicationLogger::max_log_frame_count(max_log_size);
        let log_file = match LogFile::new(file, max_log_frame_count) {
            Ok(log_file) => log_file,
            Err(e) => {
                return Err(e);
            },
        };
        if ReplicationLogger::needs_recovery(log_file.header(), dirty, fresh, data_exists) {
            Ok(OpenOutcome::Recover(log_file))
        } else {
            Ok(OpenOutcome::Ready(ReplicationLogger::from_log_file(log_file)))
        }
    }

    /// The logger is as [`ReplicationLogger::from_log_file`] makes it for
    /// the log `log`: a generation that starts after the last committed
    /// frame, and the highest frame number committed as the first one
    /// announced.
    pub open spec fn opened_at(&self, log: LogFileView) -> bool {
        &&& self.log_file@ == log
        &&& self.generation.start_index == log.header.start_frame_no + log.header.frame_count
        &&& self.new_frame_notifier == log.header.highest()
    }

    /// Starts a generation on `log_file`: it begins after the last committed
    /// frame, and the number of that frame is the first one announced;
    /// [`crate::NO_FRAME`] is announced where no frame was ever committed.
    pub fn from_log_file(log_file: LogFile) -> (logger: ReplicationLogger)
        requires
            log_file@.wf(),
        ensures
            logger.opened_at(log_file@),
            logger.wf(),
            is_random_id(logger.generation.id),
    {
        let generation_start_frame_no: u64 = log_file.header().last_frame_no();
        let highest_frame_no: u64 = log_file.header().highest_frame_no();
        ReplicationLogger {
            generation: Generation::new(generation_start_frame_no),
            log_file,
            new_frame_notifier: highest_frame_no,
        }
    }

    /// Writes the log again from the database file: empties `log_file`, then
    /// writes and commits every page of `data`, the contents of the database
    /// file after a checkpoint, as one frame. Page numbers start at 1, and
    /// the last frame carries the number of pages as the size of the
    /// database.
    ///
    /// Fails with [`LogError::FileTooLarge`] where the database file holds
    /// more pages than there are page numbers, or the log file cannot hold
    /// a frame for every page.
    pub fn recover(log_file: LogFile, data: &[u8]) -> (r: Result<ReplicationLogger, LogError>)
        requires
            data@.len() % PAGE_SIZE as nat == 0,
        ensures
            r is Ok <==> can_recover(data@),
            r matches Ok(logger) ==> {
                &&& logger.log_file@ == recovered(
                    logger.log_file@.header.db_id,
                    log_file@.max_log_frame_count,
                    data@,
                    data@.len() as int / PAGE_SIZE as int,
                )
                &&& is_recovered(logger.log_file@, data@)
                &&& logger.opened_at(logger.log_file@)
                &&& is_random_id(logger.log_file@.header.db_id)
                &&& is_random_id(logger.generation.id)
            },
            r matches Err(e) ==> e == LogError::FileTooLarge,
    {
        let size: usize = data.len();
        let num_page: usize = size / PAGE_SIZE;
        if num_page > 0xffff_ffff {
            return Err(LogError::FileTooLarge);
        }
        let mut log_file = match log_file.reset() {
            Ok(log_file) => log_file,
            Err(e) => {
                return Err(e);
            },
        };
        let ghost max = log_file@.max_log_frame_count;
        let ghost db_id = log_file@.header.db_id;
        let mut i: usize = 0;
        while i < num_page
            invariant
                0 <= i <= num_page,
                size == data@.len(),
                num_page == size / PAGE_SIZE,
                num_page <= u32::MAX,
                log_file@ == recovered(db_id, max, data@, i as int),
                is_random_id(db_id),
                log_file@.wf(),
                log_file@.header.frame_count == i,
                log_file@.header.start_frame_no == 0,
                log_file@.uncommitted_frame_count == 0,
            decreases num_page - i,
        {
            proof {
                lemma_recovered(db_id, max, data@, i as int);
            }
            assert((i + 1) * PAGE_SIZE <= size) by (nonlinear_arith)
                requires
                    i + 1 <= num_page,
                    num_page == size / PAGE_SIZE,
                    PAGE_SIZE == 4096,
            ;
            let page = WalPage {
                page_no: (i + 1) as u32,
                size_after: if i == num_page - 1 {
                    num_page as u32
                } else {
                    0
                },
                data: slice_to_vec(
                    vstd::slice::slice_subrange(data, i * PAGE_SIZE, (i + 1) * PAGE_SIZE),
                ),
            };
            match log_file.push_page(&page) {
                Ok(()) => {},
                Err(e) => {
                    return Err(e);
                },
            }
            let _ = log_file.commit();
            i = i + 1;
        }
        proof {
            lemma_recovered(db_id, max, data@, num_page as int);
        }
        Ok(ReplicationLogger::from_log_file(log_file))
    }

    /// The identifier of the database that the log belongs to.
    pub fn database_id(&self) -> (id: u128)
        ensures
            id == self.log_file@.header.db_id,
    {
        self.log_file.header().db_id
    }

    /// Writes `pages` to the log, in order, without committing them. Stops
    /// at the first page that cannot be written: the pages before it stay
    /// written, uncommitted.
    pub fn write_pages(&mut self, pages: &[WalPage]) -> (r: Result<(), LogError>)
        requires
            old(self).wf(),
            pages_sized(page_views(pages@)),
        ensures
            final(self).wf(),
            final(self).generation == old(self).generation,
            final(self).new_frame_notifier == old(self).new_frame_notifier,
            old(self).log_file@.consistent() ==> final(self).log_file@.consistent(),
            r is Ok <==> old(self).log_file@.can_push_all(pages@.len() as int),
            r is Ok ==> final(self).log_file@ == old(self).log_file@.push_pages(page_views(pages@)),
            r is Ok ==> final(self).log_file@.header == old(self).log_file@.header,
            r is Ok ==> final(self).log_file@.frame_total() == old(self).log_file@.frame_total()
                + pages@.len(),
            r is Err ==> stopped_after(
                old(self).log_file@,
                page_views(pages@),
                final(self).log_file@,
            ),
            r matches Err(e) ==> e == (if final(self).log_file@.next_frame_no() < u64::MAX {
                LogError::FileTooLarge
            } else {
                LogError::FrameNoExhausted
            }),
    {
        let ghost views = page_views(pages@);
        let ghost start = self.log_file@;
        let n: usize = pages.len();
        let mut i: usize = 0;
        proof {
            assert(views.take(0) =~= Seq::empty());
        }
        while i < n
            invariant
                0 <= i <= n,
                n == pages@.len(),
                views == page_views(pages@),
                pages_sized(views),
                start.wf(),
                start == old(self).log_file@,
                self.generation == old(self).generation,
                self.new_frame_notifier == old(self).new_frame_notifier,
                start.can_push_all(i as int),
                self.log_file@ == start.push_pages(views.take(i as int)),
                self.log_file@.wf(),
                start.consistent() ==> self.log_file@.consistent(),
                self.log_file@.frame_total() == start.frame_total() + i,
                self.log_file@.header == start.header,
            decreases n - i,
        {
            let page = &pages[i];
            proof {
                assert(views[i as int] == page@);
                lemma_push_pages_step(start, views, i as int);
            }
            match self.log_file.push_page(page) {
                Ok(()) => {},
                Err(e) => {
                    proof {
                        assert(!start.can_push_all(i + 1));
                        assert(!start.can_push_all(n as int));
                    }
                    return Err(e);
                },
            }
            i = i + 1;
        }
        proof {
            assert(views.take(n as int) =~= views);
        }
        Ok(())
    }

    /// Goes through the committed frames of `log_file` and checks the
    /// checksum of each against the chain that starts at the start checksum
    /// of `wal_header`. Gives the checksum of the last frame, or
    /// [`LogError::InvalidChecksum`] where a frame breaks the chain.
    pub fn compute_checksum(wal_header: &LogFileHeader, log_file: &LogFile) -> (r: Result<
        u64,
        LogError,
    >)
        requires
            log_file@.wf(),
        ensures
            r is Ok <==> seeded(log_file@, wal_header.start_checksum).chain_holds(
                log_file@.header.frame_count as int,
            ),
            r matches Ok(sum) ==> sum == rolling_checksum(
                wal_header.start_checksum,
                pages_of(log_file@.image, log_file@.header.frame_count as int),
            ),
            r matches Err(e) ==> e == LogError::InvalidChecksum,
    {
        let ghost v = seeded(log_file@, wal_header.start_checksum);
        let frames = match log_file.frames_iter() {
            Ok(frames) => frames,
            Err(e) => {
                return Err(LogError::InvalidChecksum);
            },
        };
        let n: usize = frames.len();
        let mut sum: u64 = wal_header.start_checksum;
        let mut i: usize = 0;
        while i < n
            invariant
                0 <= i <= n,
                n == frames@.len(),
                n == log_file@.header.frame_count,
                v == seeded(log_file@, wal_header.start_checksum),
                forall|j: int|
                    0 <= j < frames@.len() ==> (#[trigger] frames@[j])@
                        == crate::primary::log_model::frame_at(log_file@.image, j),
                v.chain_holds(i as int),
                sum == v.checksum_before(i as int),
            decreases n - i,
        {
            let frame = &frames[i];
            let cs: u64 = page_checksum(sum, frame.page());
            if cs != frame.header().checksum {
                proof {
                    assert(!v.chained(i as int));
                }
                return Err(LogError::InvalidChecksum);
            }
            proof {
                assert(v.chained(i as int));
                assert forall|j: int| 0 <= j < i + 1 implies #[trigger] v.chained(j) by {}
            }
            sum = cs;
            i = i + 1;
        }
        proof {
            lemma_chain_is_rolling_checksum(v, n as int);
        }
        Ok(sum)
    }

    /// Commits the frames written since the last commit, and gives the
    /// highest frame number committed: that of the last frame of the log
    /// or, where the log holds no frame, of the frame before its first;
    /// [`crate::NO_FRAME`] where no frame was ever committed.
    pub fn commit(&mut self) -> (r: Result<FrameNo, LogError>)
        requires
            old(self).wf(),
        ensures
            final(self).wf(),
            final(self).generation == old(self).generation,
            final(self).new_frame_notifier == old(self).new_frame_notifier,
            final(self).log_file@ == old(self).log_file@.commit(),
            old(self).log_file@.consistent() ==> final(self).log_file@.consistent(),
            r matches Ok(frame_no) && frame_no == final(self).log_file@.header.highest(),
            old(self).log_file@.frame_total() > 0 ==> r == Ok::<FrameNo, LogError>(
                (old(self).log_file@.next_frame_no() - 1) as u64,
            ),
    {
        match self.log_file.commit() {
            Ok(()) => {},
            Err(e) => {
                return Err(e);
            },
        }
        Ok(self.log_file.header().highest_frame_no())
    }

    /// Reads the frame numbered `frame_no` from the log: see
    /// [`LogFile::frame`].
    pub fn get_frame(&self, frame_no: FrameNo) -> (r: Result<Frame, LogReadError>)
        requires
            self.wf(),
        ensures
            r matches Ok(frame) ==> self.log_file@.frame(frame_no) == Ok::<Seq<u8>, LogReadError>(
                frame@,
            ),
            r matches Err(e) ==> self.log_file@.frame(frame_no) == Err::<Seq<u8>, LogReadError>(e),
            r matches Ok(frame) ==> self.log_file@.consistent() ==> crate::frame::frame_header_of(
                frame@,
            ).frame_no == frame_no,
    {
        self.log_file.frame(frame_no)
    }
}

/// The log `log` is what opening the file `image` gives: for an empty file
/// a fresh log of a database with an identifier drawn at random, and the
/// log that the file holds for any other.
pub open spec fn opened_log(image: Seq<u8>, max_log_frame_count: u64, log: LogFileView) -> bool {
    if image.len() == 0 {
        log == LogFileView::fresh(log.header.db_id, max_log_frame_count) && is_random_id(
            log.header.db_id,
        )
    } else {
        log == LogFileView::opened(image, max_log_frame_count)
    }
}

/// Writing `pages` to the log `before` stopped at a page that could not be
/// written, and left the log `after`: the pages before that one are
/// written, and no more.
pub open spec fn stopped_after(
    before: LogFileView,
    pages: Seq<crate::primary::log_file::PageView>,
    after: LogFileView,
) -> bool {
    exists|n: int|
        0 <= n < pages.len() && after == #[trigger] before.push_pages(pages.take(n))
            && !after.can_push()
}

/// The log `log` with its chain started from `start_checksum`.
pub open spec fn seeded(log: LogFileView, start_checksum: u64) -> LogFileView {
    LogFileView { header: LogFileHeader { start_checksum, ..log.header }, ..log }
}

} // verus!

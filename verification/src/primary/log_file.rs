//! The log file: a header and the frames written after it.
//!
//! A [`LogFile`] works on the image of its file. Frames are first written
//! uncommitted, after the last frame of the log. A commit makes them part of
//! the log by counting them in the header; a rollback gives them up, and the
//! next write goes over them.

use crate::checksum::page_checksum;
use crate::error::LogError;
use crate::frame::{frame_header_of, Frame, FrameHeader, FRAME_SIZE, PAGE_SIZE};
use crate::ids::{is_random_id, random_id};
use crate::primary::log_header::{
    parse_log_header, LogFileHeader, LOG_FORMAT_VERSION, LOG_HEADER_SIZE,
};
use crate::primary::log_model::{
    frame_at, frame_offset, lemma_commit, lemma_compacted, lemma_fresh_wf, lemma_push_page,
    lemma_rollback, LogFileView, LogReadError,
};
use crate::primary::version::Version;
use crate::storage::{write_at, FileImage};
use crate::{FrameNo, WAL_MAGIC, WAL_PAGE_SIZE};
use vstd::prelude::*;

verus! {

/// A page as the database engine hands it over to be logged.
#[derive(Clone, Debug)]
pub struct WalPage {
    /// Number of the page.
    pub page_no: u32,
    /// Size of the database, in pages, after the transaction that this page
    /// ends; 0 for a page that ends none.
    pub size_after: u32,
    /// The page image.
    pub data: Vec<u8>,
}

/// A page as specifications see it.
pub struct PageView {
    /// Number of the page.
    pub page_no: u32,
    /// Size of the database after the transaction that the page ends, or 0.
    pub size_after: u32,
    /// The page image.
    pub data: Seq<u8>,
}

impl View for WalPage {
    type V = PageView;

    open spec fn view(&self) -> PageView {
        PageView { page_no: self.page_no, size_after: self.size_after, data: self.data@ }
    }
}

/// The views of `pages`, in order.
pub open spec fn page_views(pages: Seq<WalPage>) -> Seq<PageView> {
    pages.map_values(|p: WalPage| p@)
}

/// Every page of `pages` has the size of a page.
pub open spec fn pages_sized(pages: Seq<PageView>) -> bool {
    forall|i: int| 0 <= i < pages.len() ==> (#[trigger] pages[i]).data.len() == PAGE_SIZE
}

/// A log file, and the operations that can be performed on it. The header is
/// cached: a file is opened by one `LogFile` at a time.
#[derive(Debug)]
pub struct LogFile {
    file: FileImage,
    header: LogFileHeader,
    /// The number of frames beyond which the log should be compacted.
    max_log_frame_count: u64,
    /// Number of frames written since the last commit. A commit adds it to
    /// the header's frame count. A rollback sets it back to 0, so that what
    /// was written after the last committed frame is ignored and written
    /// over.
    uncommitted_frame_count: u64,
    uncommitted_checksum: u64,
    /// Checksum of the last committed frame.
    commited_checksum: u64,
}

impl View for LogFile {
    type V = LogFileView;

    closed spec fn view(&self) -> LogFileView {
        LogFileView {
            image: self.file@,
            header: self.header,
            max_log_frame_count: self.max_log_frame_count,
            uncommitted_frame_count: self.uncommitted_frame_count,
            uncommitted_checksum: self.uncommitted_checksum,
            commited_checksum: self.commited_checksum,
        }
    }
}

/// The error that opening the file `image` gives, where it cannot be opened.
pub open spec fn open_error(image: Seq<u8>) -> LogError {
    if image.len() >= LOG_HEADER_SIZE && !parse_log_header(
        image.subrange(0, LOG_HEADER_SIZE as int),
    ).is_valid() {
        LogError::InvalidHeader
    } else {
        LogError::UnexpectedEof
    }
}

impl LogFile {
    /// Opens the log kept in `file`. An empty file becomes a fresh log for a
    /// database with a new random identifier. Any other file must hold a
    /// valid header and all the frames that the header counts.
    pub fn new(file: FileImage, max_log_frame_count: u64) -> (r: Result<LogFile, LogError>)
        ensures
            file@.len() == 0 ==> (r matches Ok(log) && log@ == LogFileView::fresh(
                log@.header.db_id,
                max_log_frame_count,
            ) && is_random_id(log@.header.db_id)),
            file@.len() != 0 ==> (r is Ok <==> LogFileView::can_open(file@)),
            file@.len() != 0 ==> (r matches Ok(log) ==> log@ == LogFileView::opened(
                file@,
                max_log_frame_count,
            )),
            r matches Err(e) ==> e == open_error(file@),
            r matches Ok(log) ==> log@.wf(),
            r matches Ok(log) ==> file@.len() == 0 ==> log@.consistent(),
    {
        if file.len() == 0 {
            let db_id: u128 = random_id();
            Ok(LogFile::create(file, max_log_frame_count, db_id))
        } else {
            LogFile::open_existing(file, max_log_frame_count)
        }
    }

    /// Starts a fresh log in the empty file `file`, for the database
    /// `db_id`: writes the header of a log that holds no frame.
    pub fn create(file: FileImage, max_log_frame_count: u64, db_id: u128) -> (log: LogFile)
        requires
            file@.len() == 0,
        ensures
            log@ == LogFileView::fresh(db_id, max_log_frame_count),
            log@.wf(),
            log@.consistent(),
    {
        let header = LogFileHeader {
            magic: WAL_MAGIC,
            start_checksum: 0,
            db_id,
            start_frame_no: 0,
            frame_count: 0,
            version: LOG_FORMAT_VERSION,
            page_size: WAL_PAGE_SIZE,
            sqld_version: Version::current().0,
        };
        let mut this = LogFile {
            file,
            header,
            max_log_frame_count,
            uncommitted_frame_count: 0,
            uncommitted_checksum: 0,
            commited_checksum: 0,
        };
        let _ = this.write_header();
        proof {
            let fresh = LogFileView::fresh(db_id, max_log_frame_count);
            assert(header.sqld_version@ =~= fresh.header.sqld_version@);
            assert(header.sqld_version == fresh.header.sqld_version);
            assert(header == fresh.header);
            assert(this@.image =~= fresh.image);
            lemma_fresh_wf(db_id, max_log_frame_count);
        }
        this
    }

    /// Opens the log that the file `file` holds. The running checksum is
    /// taken from the last committed frame, or from the header where the log
    /// holds no frame.
    pub fn open_existing(file: FileImage, max_log_frame_count: u64) -> (r: Result<
        LogFile,
        LogError,
    >)
        ensures
            r is Ok <==> LogFileView::can_open(file@),
            r matches Ok(log) ==> log@ == LogFileView::opened(file@, max_log_frame_count),
            r matches Ok(log) ==> log@.wf(),
            r matches Err(e) ==> e == open_error(file@),
    {
        let header = match LogFile::read_header(&file) {
            Ok(header) => header,
            Err(e) => {
                return Err(e);
            },
        };
        let size: usize = file.len();
        let mut this = LogFile {
            file,
            header,
            max_log_frame_count,
            uncommitted_frame_count: 0,
            uncommitted_checksum: header.start_checksum,
            commited_checksum: header.start_checksum,
        };
        if header.frame_count != 0 {
            // The file holds frames: the chain goes on from the last one.
            let last: u64 = header.frame_count - 1;
            if last >= ((size - LOG_HEADER_SIZE) / FRAME_SIZE) as u64 {
                return Err(LogError::UnexpectedEof);
            }
            let offset: u64 = LogFile::absolute_byte_offset(last);
            let last_frame = match this.read_frame_byte_offset(offset) {
                Ok(frame) => frame,
                Err(e) => {
                    return Err(e);
                },
            };
            let checksum: u64 = last_frame.header().checksum;
            this.commited_checksum = checksum;
            this.uncommitted_checksum = checksum;
        }
        Ok(this)
    }

    /// Reads the header that `file` starts with. Fails with
    /// [`LogError::UnexpectedEof`] where the file is shorter than a header,
    /// and with [`LogError::InvalidHeader`] where the magic number or the
    /// page size is not the expected one, or the header counts more frames
    /// than there are frame numbers.
    pub fn read_header(file: &FileImage) -> (r: Result<LogFileHeader, LogError>)
        ensures
            r is Ok <==> file@.len() >= LOG_HEADER_SIZE && parse_log_header(
                file@.subrange(0, LOG_HEADER_SIZE as int),
            ).is_valid(),
            r matches Ok(header) ==> header == parse_log_header(
                file@.subrange(0, LOG_HEADER_SIZE as int),
            ),
            r matches Err(e) ==> e == open_error(file@),
    {
        let buf = match file.read_exact_at(LOG_HEADER_SIZE, 0) {
            Ok(buf) => buf,
            Err(e) => {
                return Err(e);
            },
        };
        let header = LogFileHeader::from_bytes(buf.as_slice());
        if header.magic != WAL_MAGIC || header.page_size != WAL_PAGE_SIZE {
            return Err(LogError::InvalidHeader);
        }
        if header.frame_count > u64::MAX - header.start_frame_no {
            return Err(LogError::InvalidHeader);
        }
        Ok(header)
    }

    /// The header of the log.
    pub fn header(&self) -> (header: &LogFileHeader)
        ensures
            *header == self@.header,
    {
        &self.header
    }

    /// The image of the log's file.
    pub fn file(&self) -> (file: &FileImage)
        ensures
            file@ == self@.image,
    {
        &self.file
    }

    /// Commits the frames written since the last commit: counts them in the
    /// header, takes the checksum of the last of them as the committed one,
    /// and writes the header to the file.
    pub fn commit(&mut self) -> (r: Result<(), LogError>)
        requires
            old(self)@.wf(),
        ensures
            r is Ok,
            final(self)@ == old(self)@.commit(),
            final(self)@.wf(),
            old(self)@.consistent() ==> final(self)@.consistent(),
    {
        proof {
            lemma_commit(self@);
        }
        self.header.frame_count = self.header.frame_count + self.uncommitted_frame_count;
        self.uncommitted_frame_count = 0;
        self.commited_checksum = self.uncommitted_checksum;
        self.write_header()
    }

    /// Gives up the frames written since the last commit. They stay in the
    /// file, out of reach, until the next write goes over them.
    pub fn rollback(&mut self)
        requires
            old(self)@.wf(),
        ensures
            final(self)@ == old(self)@.rollback(),
            final(self)@.wf(),
            old(self)@.consistent() ==> final(self)@.consistent(),
    {
        proof {
            lemma_rollback(self@);
        }
        self.uncommitted_frame_count = 0;
        self.uncommitted_checksum = self.commited_checksum;
    }

    /// Writes the cached header at the start of the file.
    pub fn write_header(&mut self) -> (r: Result<(), LogError>)
        ensures
            r is Ok,
            final(self)@ == (LogFileView {
                image: write_at(
                    old(self)@.image,
                    0,
                    crate::primary::log_header::log_header_bytes(old(self)@.header),
                ),
                ..old(self)@
            }),
    {
        let bytes = self.header.to_bytes();
        self.file.write_all_at(bytes.as_slice(), 0)
    }

    /// The committed frames of the log, first to last.
    pub fn frames_iter(&self) -> (r: Result<Vec<Frame>, LogError>)
        requires
            self@.wf(),
        ensures
            r matches Ok(frames) && frames@.len() == self@.header.frame_count && forall|i: int|
                0 <= i < frames@.len() ==> (#[trigger] frames@[i])@ == frame_at(self@.image, i),
    {
        let mut frames: Vec<Frame> = Vec::new();
        let mut current_frame_offset: u64 = 0;
        while current_frame_offset < self.header.frame_count
            invariant
                self@.wf(),
                current_frame_offset <= self.header.frame_count,
                frames@.len() == current_frame_offset,
                forall|i: int|
                    0 <= i < frames@.len() ==> (#[trigger] frames@[i])@ == frame_at(self@.image, i),
            decreases self.header.frame_count - current_frame_offset,
        {
            let frame = self.committed_frame(current_frame_offset);
            frames.push(frame);
            current_frame_offset = current_frame_offset + 1;
        }
        Ok(frames)
    }

    /// The committed frames of the log, last to first.
    pub fn rev_frames_iter(&self) -> (r: Result<Vec<Frame>, LogError>)
        requires
            self@.wf(),
        ensures
            r matches Ok(frames) && frames@.len() == self@.header.frame_count && forall|i: int|
                0 <= i < frames@.len() ==> (#[trigger] frames@[i])@ == frame_at(
                    self@.image,
                    self@.header.frame_count - 1 - i,
                ),
    {
        let mut frames: Vec<Frame> = Vec::new();
        let mut current_frame_offset: u64 = self.header.frame_count;
        while current_frame_offset != 0
            invariant
                self@.wf(),
                current_frame_offset <= self.header.frame_count,
                frames@.len() == self.header.frame_count - current_frame_offset,
                forall|i: int|
                    0 <= i < frames@.len() ==> (#[trigger] frames@[i])@ == frame_at(
                        self@.image,
                        self@.header.frame_count - 1 - i,
                    ),
            decreases current_frame_offset,
        {
            current_frame_offset = current_frame_offset - 1;
            let frame = self.committed_frame(current_frame_offset);
            frames.push(frame);
        }
        Ok(frames)
    }

    /// The frame with index `nth` among those written.
    fn committed_frame(&self, nth: u64) -> (frame: Frame)
        requires
            self@.wf(),
            nth < self@.frame_total(),
        ensures
            frame@ == frame_at(self@.image, nth as int),
    {
        assert(frame_offset(nth + 1) <= frame_offset(self@.frame_total())) by (nonlinear_arith)
            requires
                nth + 1 <= self@.frame_total(),
        ;
        let offset: u64 = LogFile::absolute_byte_offset(nth);
        match self.read_frame_byte_offset(offset) {
            Ok(frame) => frame,
            Err(_) => vstd::pervasive::unreached(),
        }
    }

    /// The checksum of a frame that carries `page` and comes after the last
    /// frame written.
    pub fn compute_checksum(&self, page: &WalPage) -> (sum: u64)
        ensures
            sum == crate::checksum::next_checksum(self@.uncommitted_checksum, page.data@),
    {
        page_checksum(self.uncommitted_checksum, page.data.as_slice())
    }

    /// Writes `page` as one more uncommitted frame: it gets the next frame
    /// number and the checksum that chains it to the frame written before
    /// it. The header's frame count is not touched.
    ///
    /// Fails, and changes nothing, where no frame number is left
    /// ([`LogError::FrameNoExhausted`]) or the file cannot grow by a frame
    /// ([`LogError::FileTooLarge`]).
    pub fn push_page(&mut self, page: &WalPage) -> (r: Result<(), LogError>)
        requires
            old(self)@.wf(),
            page.data@.len() == PAGE_SIZE,
        ensures
            r is Ok <==> old(self)@.can_push(),
            r is Ok ==> final(self)@ == old(self)@.push_page(
                page.page_no,
                page.size_after,
                page.data@,
            ),
            r matches Err(e) ==> final(self)@ == old(self)@ && e == (if old(self)@.next_frame_no()
                < u64::MAX {
                LogError::FileTooLarge
            } else {
                LogError::FrameNoExhausted
            }),
            final(self)@.wf(),
            old(self)@.consistent() ==> final(self)@.consistent(),
    {
        let frame_no: u64 = self.next_frame_no();
        if frame_no == u64::MAX {
            return Err(LogError::FrameNoExhausted);
        }
        let checksum: u64 = self.compute_checksum(page);
        let frame = Frame::from_parts(
            &FrameHeader { frame_no, checksum, page_no: page.page_no, size_after: page.size_after },
            page.data.as_slice(),
        );
        let byte_offset: u64 = self.next_byte_offset();
        proof {
            if self@.can_push() {
                lemma_push_page(self@, page.page_no, page.size_after, page.data@);
            }
        }
        match self.file.write_all_at(frame.as_slice(), byte_offset) {
            Ok(()) => {},
            Err(e) => {
                return Err(e);
            },
        }
        self.uncommitted_frame_count = self.uncommitted_frame_count + 1;
        self.uncommitted_checksum = checksum;
        Ok(())
    }

    /// Position in the file at which the next frame is written.
    pub fn next_byte_offset(&self) -> (offset: u64)
        requires
            self@.wf(),
        ensures
            offset == frame_offset(self@.frame_total()),
    {
        LogFile::absolute_byte_offset(self.header.frame_count + self.uncommitted_frame_count)
    }

    /// The number that the next frame written gets.
    pub fn next_frame_no(&self) -> (frame_no: FrameNo)
        requires
            self@.wf(),
        ensures
            frame_no == self@.next_frame_no(),
    {
        self.header.start_frame_no + self.header.frame_count + self.uncommitted_frame_count
    }

    /// Position in a log file of the frame with index `nth`.
    pub fn absolute_byte_offset(nth: u64) -> (offset: u64)
        requires
            frame_offset(nth as int) <= u64::MAX,
        ensures
            offset == frame_offset(nth as int),
    {
        64 + nth * 4120
    }

    /// Position in the file of the frame numbered `id`, or of the frame that
    /// will be written next where `id` is its number; `None` for any other
    /// number.
    pub fn byte_offset(&self, id: FrameNo) -> (offset: Option<u64>)
        requires
            self@.wf(),
        ensures
            offset is Some <==> self@.header.start_frame_no <= id <= self@.header.start_frame_no
                + self@.header.frame_count,
            offset matches Some(at) ==> at == frame_offset(id - self@.header.start_frame_no),
    {
        if id < self.header.start_frame_no || id > self.header.start_frame_no
            + self.header.frame_count {
            return None;
        }
        assert(frame_offset(id - self@.header.start_frame_no) <= frame_offset(self@.frame_total()))
            by (nonlinear_arith)
            requires
                id - self@.header.start_frame_no <= self@.frame_total(),
        ;
        Some(LogFile::absolute_byte_offset(id - self.header.start_frame_no))
    }

    /// Reads the frame numbered `frame_no`. Fails with
    /// [`LogReadError::SnapshotRequired`] for a frame older than the first of
    /// the log, and with [`LogReadError::Ahead`] for one that is not
    /// committed yet. In a consistent log the frame read carries the number
    /// that was asked for.
    pub fn frame(&self, frame_no: FrameNo) -> (r: Result<Frame, LogReadError>)
        requires
            self@.wf(),
        ensures
            r matches Ok(frame) ==> self@.frame(frame_no) == Ok::<Seq<u8>, LogReadError>(frame@),
            r matches Err(e) ==> self@.frame(frame_no) == Err::<Seq<u8>, LogReadError>(e),
            r matches Ok(frame) ==> self@.consistent() ==> frame_header_of(frame@).frame_no
                == frame_no,
    {
        if frame_no < self.header.start_frame_no {
            return Err(LogReadError::SnapshotRequired);
        }
        if frame_no >= self.header.start_frame_no + self.header.frame_count {
            return Err(LogReadError::Ahead);
        }
        let frame = self.committed_frame(frame_no - self.header.start_frame_no);
        proof {
            if self@.consistent() {
                assert(self@.numbered(frame_no - self@.header.start_frame_no));
            }
        }
        Ok(frame)
    }

    /// Compacts the log where it has outgrown its limit: see
    /// [`LogFile::do_compaction`]. Gives back the log that was retired, if
    /// one was.
    pub fn maybe_compact(&mut self) -> (retired: Option<LogFile>)
        requires
            old(self)@.wf(),
        ensures
            old(self)@.should_compact() ==> (retired matches Some(log) && log@ == old(self)@)
                && final(self)@ == old(self)@.compacted(),
            !old(self)@.should_compact() ==> retired is None && final(self)@ == old(self)@,
            final(self)@.wf(),
            old(self)@.consistent() ==> final(self)@.consistent(),
    {
        if self.header.frame_count > self.max_log_frame_count {
            proof {
                lemma_compacted(self@);
            }
            return Some(self.do_compaction());
        }
        None
    }

    /// Retires the log and puts a new one in its place. The new log holds no
    /// frame; its first frame will get the number after the last committed
    /// frame of the retired log, and will be chained to that frame's
    /// checksum. The retired log is given back, to be folded into a
    /// snapshot.
    pub fn do_compaction(&mut self) -> (retired: LogFile)
        requires
            old(self)@.wf(),
        ensures
            retired@ == old(self)@,
            final(self)@ == old(self)@.compacted(),
            final(self)@.wf(),
            final(self)@.consistent(),
    {
        let new_header = LogFileHeader {
            start_frame_no: self.header.start_frame_no + self.header.frame_count,
            frame_count: 0,
            start_checksum: self.commited_checksum,
            magic: self.header.magic,
            db_id: self.header.db_id,
            version: self.header.version,
            page_size: self.header.page_size,
            sqld_version: self.header.sqld_version,
        };
        let mut new_log_file = LogFile {
            file: FileImage::new(),
            header: new_header,
            max_log_frame_count: self.max_log_frame_count,
            uncommitted_frame_count: 0,
            uncommitted_checksum: self.commited_checksum,
            commited_checksum: self.commited_checksum,
        };
        let _ = new_log_file.write_header();
        proof {
            lemma_compacted(self@);
            assert(new_log_file@.image =~= self@.compacted().image);
        }
        core::mem::swap(self, &mut new_log_file);
        new_log_file
    }

    /// Reads the frame that starts at position `offset`. Fails with
    /// [`LogError::UnexpectedEof`] where the file ends before the frame
    /// does.
    pub fn read_frame_byte_offset(&self, offset: u64) -> (r: Result<Frame, LogError>)
        ensures
            r is Ok <==> offset + FRAME_SIZE <= self@.image.len(),
            r matches Ok(frame) ==> frame@ == self@.image.subrange(
                offset as int,
                offset + FRAME_SIZE,
            ),
            r matches Err(e) ==> e == LogError::UnexpectedEof,
    {
        let buffer = match self.file.read_exact_at(FRAME_SIZE, offset) {
            Ok(buffer) => buffer,
            Err(e) => {
                return Err(e);
            },
        };
        Frame::try_from_bytes(buffer)
    }

    /// The number of the last committed frame, if the log holds one.
    pub fn last_commited_frame_no(&self) -> (frame_no: Option<FrameNo>)
        requires
            self@.wf(),
        ensures
            frame_no == if self@.header.frame_count == 0 {
                None
            } else {
                Some((self@.header.start_frame_no + self@.header.frame_count - 1) as u64)
            },
    {
        if self.header.frame_count == 0 {
            None
        } else {
            Some(self.header.start_frame_no + self.header.frame_count - 1)
        }
    }

    /// Empties the file and starts a fresh log in it, for a database with a
    /// new random identifier.
    pub fn reset(self) -> (r: Result<LogFile, LogError>)
        ensures
            r matches Ok(log) && log@ == LogFileView::fresh(
                log@.header.db_id,
                self@.max_log_frame_count,
            ) && is_random_id(log@.header.db_id) && log@.wf() && log@.consistent(),
    {
        let max_log_frame_count: u64 = self.max_log_frame_count;
        let mut file = self.file;
        file.truncate(0);
        LogFile::new(file, max_log_frame_count)
    }
}

} // verus!

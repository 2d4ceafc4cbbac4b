//! The hook that the database engine calls on the primary with the pages of
//! each write, and at the end of each transaction.
//!
//! A write reaches the log in three steps: the pages are written to the log
//! file after its last frame; the engine writes them to the database; if the
//! engine succeeded and the write ends a transaction, the log is committed.
//! The engine performs the second step itself: [`ReplicationLoggerHook`]
//! holds the decisions that come before and after it.

use crate::error::LogError;
use crate::frame::PAGE_SIZE;
use crate::primary::log_file::{page_views, pages_sized, LogFile, PageView, WalPage};
use crate::primary::logger::{stopped_after, ReplicationLogger};
use crate::WAL_PAGE_SIZE;
use vstd::prelude::*;
use vstd::slice::slice_to_vec;

verus! {

/// The engine's code for success.
pub const SQLITE_OK: i32 = 0;

/// The engine's code for an input or output error. An engine that gets it
/// from the hook undoes the transaction.
pub const SQLITE_IOERR: i32 = 10;

/// `pages` with the last page marked as the end of a transaction that
/// leaves the database `size_after` pages long.
pub open spec fn sealed(pages: Seq<PageView>, size_after: u32) -> Seq<PageView> {
    if pages.len() == 0 {
        pages
    } else {
        pages.update(pages.len() - 1, PageView { size_after, ..pages.last() })
    }
}

/// The pages that the engine hands over, none of them marked as the end of
/// a transaction.
pub open spec fn incoming(pages: Seq<(u32, Vec<u8>)>) -> Seq<PageView> {
    Seq::new(
        pages.len(),
        |i: int| PageView { page_no: pages[i].0, size_after: 0, data: pages[i].1@ },
    )
}

/// What the hook keeps between two calls of the engine: the pages handed
/// over and not yet written to the log.
#[derive(Debug)]
pub struct ReplicationLoggerHookCtx {
    buffer: Vec<WalPage>,
}

impl View for ReplicationLoggerHookCtx {
    type V = Seq<PageView>;

    closed spec fn view(&self) -> Seq<PageView> {
        page_views(self.buffer@)
    }
}

impl ReplicationLoggerHookCtx {
    /// Every page kept has the size of a page.
    pub open spec fn wf(&self) -> bool {
        pages_sized(self@)
    }

    /// A context that keeps no page.
    pub fn new() -> (ctx: ReplicationLoggerHookCtx)
        ensures
            ctx@ == Seq::<PageView>::empty(),
            ctx.wf(),
    {
        let ctx = ReplicationLoggerHookCtx { buffer: Vec::new() };
        assert(ctx@ =~= Seq::<PageView>::empty());
        ctx
    }

    /// Keeps a copy of the page `data`, numbered `page_no`, to be written
    /// to the log.
    pub fn write_frame(&mut self, page_no: u32, data: &[u8])
        requires
            old(self).wf(),
            data@.len() == PAGE_SIZE,
        ensures
            final(self)@ == old(self)@.push(PageView { page_no, size_after: 0, data: data@ }),
            final(self).wf(),
    {
        let entry = WalPage { page_no, size_after: 0, data: slice_to_vec(data) };
        self.buffer.push(entry);
        assert(self@ =~= old(self)@.push(PageView { page_no, size_after: 0, data: data@ }));
    }

    /// Writes the pages kept to the log, without committing them; the last
    /// one is marked as the end of a transaction that leaves the database
    /// `size_after` pages long. No page is kept afterwards. Where a page
    /// cannot be written, the pages stay kept, to be dropped by
    /// [`ReplicationLoggerHookCtx::rollback`].
    pub fn flush(&mut self, logger: &mut ReplicationLogger, size_after: u32) -> (r: Result<
        (),
        LogError,
    >)
        requires
            old(self).wf(),
            old(logger).wf(),
        ensures
            final(self).wf(),
            final(logger).wf(),
            final(logger).generation == old(logger).generation,
            final(logger).new_frame_notifier == old(logger).new_frame_notifier,
            old(logger).log_file@.consistent() ==> final(logger).log_file@.consistent(),
            r is Ok <==> old(logger).log_file@.can_push_all(old(self)@.len() as int),
            r is Ok ==> final(self)@ == Seq::<PageView>::empty() && final(logger).log_file@ == old(
                logger,
            ).log_file@.push_pages(sealed(old(self)@, size_after)),
            r is Err ==> final(self)@ == sealed(old(self)@, size_after) && stopped_after(
                old(logger).log_file@,
                sealed(old(self)@, size_after),
                final(logger).log_file@,
            ),
            r matches Err(e) ==> e == (if final(logger).log_file@.next_frame_no() < u64::MAX {
                LogError::FileTooLarge
            } else {
                LogError::FrameNoExhausted
            }),
    {
        if self.buffer.len() != 0 {
            let mut last = match self.buffer.pop() {
                Some(last) => last,
                None => vstd::pervasive::unreached(),
            };
            last.size_after = size_after;
            self.buffer.push(last);
            assert(self@ =~= sealed(old(self)@, size_after));
            match logger.write_pages(self.buffer.as_slice()) {
                Ok(()) => {},
                Err(e) => {
                    return Err(e);
                },
            }
            self.buffer.clear();
            assert(self@ =~= Seq::<PageView>::empty());
        } else {
            assert(old(self)@.len() == 0);
            assert(self@ =~= Seq::<PageView>::empty());
        }
        Ok(())
    }

    /// Commits the log and announces the highest frame number committed.
    pub fn commit(&self, logger: &mut ReplicationLogger) -> (r: Result<(), LogError>)
        requires
            old(logger).wf(),
        ensures
            r is Ok,
            final(logger).wf(),
            final(logger).generation == old(logger).generation,
            final(logger).log_file@ == old(logger).log_file@.commit(),
            final(logger).new_frame_notifier == old(logger).log_file@.commit().header.highest(),
            old(logger).log_file@.frame_total() > 0 ==> final(logger).new_frame_notifier == old(
                logger,
            ).log_file@.next_frame_no() - 1,
            old(logger).log_file@.consistent() ==> final(logger).log_file@.consistent(),
    {
        let new_frame_no: u64 = match logger.commit() {
            Ok(frame_no) => frame_no,
            Err(e) => {
                return Err(e);
            },
        };
        logger.new_frame_notifier = new_frame_no;
        Ok(())
    }

    /// Gives up what was written to the log since its last commit, and the
    /// pages kept.
    pub fn rollback(&mut self, logger: &mut ReplicationLogger)
        requires
            old(logger).wf(),
        ensures
            final(self)@ == Seq::<PageView>::empty(),
            final(self).wf(),
            final(logger).wf(),
            final(logger).generation == old(logger).generation,
            final(logger).new_frame_notifier == old(logger).new_frame_notifier,
            final(logger).log_file@ == old(logger).log_file@.rollback(),
            old(logger).log_file@.consistent() ==> final(logger).log_file@.consistent(),
    {
        logger.log_file.rollback();
        self.buffer.clear();
        assert(self@ =~= Seq::<PageView>::empty());
    }
}

/// Whether a write that the engine has made commits the log: the write
/// ended a transaction (`is_commit` is not zero) and the engine succeeded
/// (`rc` is [`SQLITE_OK`]).
pub open spec fn commits(is_commit: i32, rc: i32) -> bool {
    is_commit != 0 && rc == SQLITE_OK
}

/// What a failure to write the log file leads to.
#[derive(Clone, Copy, Debug, PartialEq, Eq, Structural)]
pub enum WriteFailure {
    /// The engine is returned `rc`, and undoes the transaction.
    FailWrite {
        /// The code for the engine.
        rc: i32,
    },
    /// Log and database have parted for good: the process has to stop
    /// rather than serve another write.
    Fatal,
}

/// The decisions of the primary's hook. Its functions are called on the
/// type; the one value names the hook where a value is asked for.
#[derive(Clone, Copy, Debug, PartialEq, Eq, Structural)]
pub enum ReplicationLoggerHook {
    /// The hook that logs the writes of a primary.
    Logger,
}

impl ReplicationLoggerHook {
    /// The name under which the hook is registered with the engine.
    pub fn name() -> (name: &'static str)
        ensures
            name@ == "replication_logger_hook"@,
    {
        "replication_logger_hook"
    }

    /// The engine is about to write `pages`, and the database will be
    /// `ntruncate` pages long if the write ends a transaction. Writes the
    /// pages to the log, uncommitted, after those kept from earlier calls.
    ///
    /// Gives [`SQLITE_OK`] where the engine may go on and write the pages
    /// itself, and [`SQLITE_IOERR`] where the log could not take them: the
    /// engine then has to fail the write, so that database and log do not
    /// part.
    pub fn on_frames(
        ctx: &mut ReplicationLoggerHookCtx,
        logger: &mut ReplicationLogger,
        page_size: i32,
        pages: &[(u32, Vec<u8>)],
        ntruncate: u32,
    ) -> (rc: i32)
        requires
            page_size == WAL_PAGE_SIZE,
            old(ctx).wf(),
            old(logger).wf(),
            pages_sized(incoming(pages@)),
        ensures
            final(ctx).wf(),
            final(logger).wf(),
            final(logger).generation == old(logger).generation,
            final(logger).new_frame_notifier == old(logger).new_frame_notifier,
            old(logger).log_file@.consistent() ==> final(logger).log_file@.consistent(),
            rc == SQLITE_OK || rc == SQLITE_IOERR,
            rc == SQLITE_OK <==> old(logger).log_file@.can_push_all(
                (old(ctx)@.len() + pages@.len()) as int,
            ),
            rc == SQLITE_OK ==> final(ctx)@ == Seq::<PageView>::empty() && final(logger).log_file@
                == old(logger).log_file@.push_pages(sealed(old(ctx)@ + incoming(pages@), ntruncate)),
            rc == SQLITE_IOERR ==> final(ctx)@ == sealed(old(ctx)@ + incoming(pages@), ntruncate)
                && stopped_after(
                old(logger).log_file@,
                sealed(old(ctx)@ + incoming(pages@), ntruncate),
                final(logger).log_file@,
            ),
    {
        let n: usize = pages.len();
        let mut i: usize = 0;
        proof {
            assert(ctx@ =~= old(ctx)@ + incoming(pages@).take(0));
        }
        while i < n
            invariant
                0 <= i <= n,
                n == pages@.len(),
                pages_sized(incoming(pages@)),
                ctx.wf(),
                ctx@ == old(ctx)@ + incoming(pages@).take(i as int),
            decreases n - i,
        {
            let page = &pages[i];
            proof {
                assert(incoming(pages@)[i as int].data.len() == PAGE_SIZE);
            }
            ctx.write_frame(page.0, page.1.as_slice());
            proof {
                assert(ctx@ =~= old(ctx)@ + incoming(pages@).take(i + 1));
            }
            i = i + 1;
        }
        proof {
            assert(incoming(pages@).take(n as int) =~= incoming(pages@));
        }
        match ctx.flush(logger, ntruncate) {
            Ok(()) => SQLITE_OK,
            Err(_) => SQLITE_IOERR,
        }
    }

    /// The engine has written the pages and returned `rc`; `is_commit` is
    /// not zero where the write ended a transaction. Where the transaction
    /// ended and the engine succeeded, commits the log, announces the
    /// highest frame number committed, and compacts the log if it has
    /// outgrown its limit: the retired log is then given back. Otherwise
    /// nothing is done.
    ///
    /// The caller returns `rc` to the engine. Once the engine has committed,
    /// a caller that cannot make the committed log durable must stop the
    /// process: nothing brings log and database together again.
    pub fn on_frames_applied(
        ctx: &ReplicationLoggerHookCtx,
        logger: &mut ReplicationLogger,
        is_commit: i32,
        rc: i32,
    ) -> (retired: Option<LogFile>)
        requires
            old(logger).wf(),
        ensures
            final(logger).wf(),
            final(logger).generation == old(logger).generation,
            old(logger).log_file@.consistent() ==> final(logger).log_file@.consistent(),
            !commits(is_commit, rc) ==> retired is None && final(logger).log_file@ == old(
                logger,
            ).log_file@ && final(logger).new_frame_notifier == old(logger).new_frame_notifier,
            commits(is_commit, rc) ==> {
                let committed = old(logger).log_file@.commit();
                &&& final(logger).new_frame_notifier == committed.header.highest()
                &&& committed.header.frame_count > 0 ==> final(logger).new_frame_notifier
                    == committed.header.start_frame_no + committed.header.frame_count - 1
                &&& committed.should_compact() ==> (retired matches Some(log) && log@ == committed)
                    && final(logger).log_file@ == committed.compacted()
                &&& !committed.should_compact() ==> retired is None && final(logger).log_file@
                    == committed
            },
    {
        if ReplicationLoggerHook::is_committed(is_commit, rc) {
            let _ = ctx.commit(logger);
            return logger.log_file.maybe_compact();
        }
        None
    }

    /// Decides whether a write that the engine has made commits the log:
    /// see [`commits`].
    pub fn is_committed(is_commit: i32, rc: i32) -> (r: bool)
        ensures
            r == commits(is_commit, rc),
    {
        is_commit != 0 && rc == SQLITE_OK
    }

    /// What is done when the log file could not be written. While pages are
    /// only written, uncommitted, the write is failed with
    /// [`SQLITE_IOERR`], and the engine undoes the transaction. Once the
    /// engine has committed there is no way back: the failure is fatal.
    pub fn on_write_failure(engine_committed: bool) -> (failure: WriteFailure)
        ensures
            failure == if engine_committed {
                WriteFailure::Fatal
            } else {
                WriteFailure::FailWrite { rc: SQLITE_IOERR }
            },
    {
        if engine_committed {
            WriteFailure::Fatal
        } else {
            WriteFailure::FailWrite { rc: SQLITE_IOERR }
        }
    }

    /// The engine undoes the transaction: gives up what was written to the
    /// log since its last commit.
    pub fn on_undo(ctx: &mut ReplicationLoggerHookCtx, logger: &mut ReplicationLogger)
        requires
            old(logger).wf(),
        ensures
            final(ctx)@ == Seq::<PageView>::empty(),
            final(ctx).wf(),
            final(logger).wf(),
            final(logger).generation == old(logger).generation,
            final(logger).new_frame_notifier == old(logger).new_frame_notifier,
            final(logger).log_file@ == old(logger).log_file@.rollback(),
            old(logger).log_file@.consistent() ==> final(logger).log_file@.consistent(),
    {
        ctx.rollback(logger);
    }

    /// The engine has undone a savepoint and returned `rc`: the log takes no
    /// part in it, and the code goes back as it came.
    pub fn on_savepoint_undo(rc: i32) -> (out: i32)
        ensures
            out == rc,
    {
        if rc != SQLITE_OK {
            return rc;
        }
        rc
    }

    /// The engine has made a checkpoint and returned `rc`: the log takes no
    /// part in it, and the code goes back as it came.
    pub fn on_checkpoint(rc: i32) -> (out: i32)
        ensures
            out == rc,
    {
        if rc != SQLITE_OK {
            return rc;
        }
        SQLITE_OK
    }
}

} // verus!

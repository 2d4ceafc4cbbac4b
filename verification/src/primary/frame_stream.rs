//! The stream of frames that a primary serves to one replica.
//!
//! The stream is lazy and has no end of its own: it gives the frames of the
//! log one by one, from a first frame number on, and where it has reached
//! the end of the log it waits for the next commit.

use crate::frame::{frame_header_of, Frame};
use crate::primary::log_model::LogReadError;
use crate::primary::logger::ReplicationLogger;
use crate::{frames_up_to, FrameNo, NO_FRAME};
use vstd::prelude::*;

verus! {

/// Where a stream of frames stands.
#[derive(Clone, Copy, Debug, PartialEq, Eq, Structural)]
pub struct FrameStream {
    /// Number of the next frame to give.
    pub current_frame_no: FrameNo,
    /// The highest frame number that the stream has seen announced;
    /// [`NO_FRAME`] where it has seen none.
    pub max_available_frame_no: FrameNo,
    /// Whether the stream has failed: it gives nothing any more.
    pub closed: bool,
}

/// What a stream gives when it is polled.
#[derive(Debug)]
pub enum StreamItem {
    /// The next frame.
    Frame(Frame),
    /// The frame is not committed yet: the stream waits until its frame is
    /// announced, see [`FrameStream::waits`], and is then polled again.
    Pending {
        /// The highest frame number announced so far; [`NO_FRAME`] where
        /// none was.
        seen: FrameNo,
    },
    /// The frame cannot be had from the log. The stream is closed.
    Failed(LogReadError),
    /// The stream was closed before.
    Closed,
}

/// Of two announcements, the one that announces more frames; the first
/// where they announce as many.
pub open spec fn later_of(seen: FrameNo, announced: FrameNo) -> FrameNo {
    if frames_up_to(announced) > frames_up_to(seen) {
        announced
    } else {
        seen
    }
}

/// The wait rule and the log agree: where the highest frame number
/// committed to a log is what was announced, a stream waits exactly when
/// its next frame is not older than the log and not committed yet.
pub proof fn lemma_waits_until_committed(stream: FrameStream, log: crate::primary::log_model::LogFileView)
    requires
        log.wf(),
    ensures
        frames_up_to(log.header.highest()) == log.header.start_frame_no + log.header.frame_count,
        stream.spec_waits(log.header.highest()) <==> log.frame(stream.current_frame_no) == Err::<
            Seq<u8>,
            LogReadError,
        >(LogReadError::Ahead),
{
}

impl FrameStream {
    /// Whether the stream has to wait when `announced` is the highest frame
    /// number announced: so it is as long as the next frame of the stream
    /// is beyond it, or no frame was announced at all.
    pub open spec fn spec_waits(&self, announced: FrameNo) -> bool {
        frames_up_to(announced) <= self.current_frame_no
    }

    /// Decides whether the stream, which was found pending, goes on
    /// waiting when `announced` is the highest frame number announced. The
    /// stream is polled again as soon as it does not wait.
    pub fn waits(&self, announced: FrameNo) -> (wait: bool)
        ensures
            wait == self.spec_waits(announced),
            announced != NO_FRAME ==> wait == (announced < self.current_frame_no),
            announced == NO_FRAME ==> wait,
    {
        announced == NO_FRAME || announced < self.current_frame_no
    }

    /// A stream that starts at the frame `current_frameno` of the log of
    /// `logger`.
    pub fn new(logger: &ReplicationLogger, current_frameno: FrameNo) -> (stream: FrameStream)
        ensures
            stream == (FrameStream {
                current_frame_no: current_frameno,
                max_available_frame_no: logger.new_frame_notifier,
                closed: false,
            }),
    {
        FrameStream {
            current_frame_no: current_frameno,
            max_available_frame_no: logger.new_frame_notifier,
            closed: false,
        }
    }

    /// Polls the stream: reads the next frame from the log of `logger`.
    ///
    /// A committed frame is given, and the stream moves on to the next. A
    /// frame that is not committed yet leaves the stream where it is, to
    /// wait for the next announcement. Any other failure, a frame older
    /// than the log among them, closes the stream.
    pub fn poll_next(&mut self, logger: &ReplicationLogger) -> (item: StreamItem)
        requires
            logger.wf(),
        ensures
            old(self).closed ==> item is Closed && *final(self) == *old(self),
            !old(self).closed ==> match logger.log_file@.frame(old(self).current_frame_no) {
                Ok(bytes) => {
                    &&& item matches StreamItem::Frame(frame)
                    &&& frame@ == bytes
                    &&& logger.log_file@.consistent() ==> frame_header_of(frame@).frame_no == old(
                        self,
                    ).current_frame_no
                    &&& *final(self) == (FrameStream {
                        current_frame_no: (old(self).current_frame_no + 1) as u64,
                        ..*old(self)
                    })
                },
                Err(LogReadError::Ahead) => {
                    &&& item == (StreamItem::Pending { seen: final(self).max_available_frame_no })
                    &&& *final(self) == (FrameStream {
                        max_available_frame_no: later_of(
                            old(self).max_available_frame_no,
                            logger.new_frame_notifier,
                        ),
                        ..*old(self)
                    })
                },
                Err(e) => {
                    &&& item == StreamItem::Failed(e)
                    &&& *final(self) == (FrameStream { closed: true, ..*old(self) })
                },
            },
    {
        if self.closed {
            return StreamItem::Closed;
        }
        match logger.get_frame(self.current_frame_no) {
            Ok(frame) => {
                self.current_frame_no = self.current_frame_no + 1;
                StreamItem::Frame(frame)
            },
            Err(LogReadError::Ahead) => {
                // The value may have changed since the stream last looked.
                let max_available_frame_no: u64 = logger.new_frame_notifier;
                if max_available_frame_no.wrapping_add(1) > self.max_available_frame_no.wrapping_add(
                    1,
                ) {
                    self.max_available_frame_no = max_available_frame_no;
                }
                StreamItem::Pending { seen: self.max_available_frame_no }
            },
            Err(e) => {
                self.closed = true;
                StreamItem::Failed(e)
            },
        }
    }
}

} // verus!

//! The errors of the frame log.

use vstd::prelude::*;

verus! {

/// Why an operation on a log or on its file image failed.
#[derive(Clone, Copy, Debug, PartialEq, Eq, Structural)]
pub enum LogError {
    /// The file does not start with a log header: the magic number or the
    /// page size is not the expected one, or the file is too short.
    InvalidHeader,
    /// A read went past the end of the file.
    UnexpectedEof,
    /// A file is larger than can be dealt with: a write would end beyond
    /// the largest file that can be addressed, or a database file holds
    /// more pages than there are page numbers.
    FileTooLarge,
    /// The bytes do not have the size of a frame.
    InvalidFrameSize,
    /// No frame number is left to assign.
    FrameNoExhausted,
    /// A frame does not carry the checksum that the chain gives it.
    InvalidChecksum,
}

impl LogError {
    /// The description of the error.
    pub open spec fn spec_message(&self) -> Seq<char> {
        match *self {
            LogError::InvalidHeader => "invalid replication log header"@,
            LogError::UnexpectedEof => "failed to fill whole buffer"@,
            LogError::FileTooLarge => "file too large"@,
            LogError::InvalidFrameSize => "invalid frame size"@,
            LogError::FrameNoExhausted => "frame numbers exhausted"@,
            LogError::InvalidChecksum => "invalid WAL file: invalid checksum"@,
        }
    }

    /// A description of the error for a person to read.
    pub fn message(&self) -> (text: String)
        ensures
            text@ == self.spec_message(),
    {
        match self {
            LogError::InvalidHeader => "invalid replication log header".to_owned(),
            LogError::UnexpectedEof => "failed to fill whole buffer".to_owned(),
            LogError::FileTooLarge => "file too large".to_owned(),
            LogError::InvalidFrameSize => "invalid frame size".to_owned(),
            LogError::FrameNoExhausted => "frame numbers exhausted".to_owned(),
            LogError::InvalidChecksum => "invalid WAL file: invalid checksum".to_owned(),
        }
    }
}

} // verus!

//! The checkpoint that comes before a recovery.
//!
//! Before the log is written again from the database file, every page that
//! is still in the engine's own write-ahead log has to reach that file. This
//! takes four calls into the engine, each of which may fail. The calls are
//! the caller's; what follows from their return codes is decided here.

use crate::primary::logger_hook::SQLITE_OK;
use vstd::prelude::*;

verus! {

/// A call into the engine.
#[derive(Clone, Copy, Debug, PartialEq, Eq, Structural)]
pub enum CheckpointStep {
    /// Open the database file.
    Open,
    /// Run [`CHECKPOINT_STATEMENT`].
    Checkpoint,
    /// Run [`VACUUM_STATEMENT`].
    Vacuum,
    /// Close the database.
    Close,
}

/// Why a checkpoint failed.
#[derive(Clone, Copy, Debug, PartialEq, Eq, Structural)]
pub enum CheckpointError {
    /// The path of the database file is no text that the engine can take.
    InvalidPath,
    /// The database file could not be opened.
    Open {
        /// The code that the engine returned.
        rc: i32,
    },
    /// The engine could not move its write-ahead log into the database
    /// file.
    Checkpoint,
    /// The engine could not compact the database file.
    Vacuum {
        /// The code that the engine returned.
        rc: i32,
    },
    /// The database could not be closed.
    Close {
        /// The code that the engine returned.
        rc: i32,
    },
}

/// The statement that moves the engine's write-ahead log into the database
/// file and empties it.
pub const CHECKPOINT_STATEMENT: &'static str = "PRAGMA wal_checkpoint(TRUNCATE)";

/// The statement that compacts the database file.
pub const VACUUM_STATEMENT: &'static str = "VACUUM";

/// What follows the call `step` when the engine returned `rc`: the next
/// call, `None` after the last one, or the failure of the checkpoint.
pub open spec fn checkpoint_after(step: CheckpointStep, rc: i32) -> Result<
    Option<CheckpointStep>,
    CheckpointError,
> {
    if rc == SQLITE_OK {
        match step {
            CheckpointStep::Open => Ok(Some(CheckpointStep::Checkpoint)),
            CheckpointStep::Checkpoint => Ok(Some(CheckpointStep::Vacuum)),
            CheckpointStep::Vacuum => Ok(Some(CheckpointStep::Close)),
            CheckpointStep::Close => Ok(None),
        }
    } else {
        match step {
            CheckpointStep::Open => Err(CheckpointError::Open { rc }),
            CheckpointStep::Checkpoint => Err(CheckpointError::Checkpoint),
            CheckpointStep::Vacuum => Err(CheckpointError::Vacuum { rc }),
            CheckpointStep::Close => Err(CheckpointError::Close { rc }),
        }
    }
}

/// The first call of a checkpoint, where the path of the database file is
/// text that the engine can take.
pub fn checkpoint_start(path_is_text: bool) -> (r: Result<CheckpointStep, CheckpointError>)
    ensures
        r == if path_is_text {
            Ok::<CheckpointStep, CheckpointError>(CheckpointStep::Open)
        } else {
            Err::<CheckpointStep, CheckpointError>(CheckpointError::InvalidPath)
        },
{
    if path_is_text {
        Ok(CheckpointStep::Open)
    } else {
        Err(CheckpointError::InvalidPath)
    }
}

/// Decides what follows the call `step`, from which the engine returned
/// `rc`: see [`checkpoint_after`].
pub fn checkpoint_next(step: CheckpointStep, rc: i32) -> (r: Result<
    Option<CheckpointStep>,
    CheckpointError,
>)
    ensures
        r == checkpoint_after(step, rc),
{
    if rc == SQLITE_OK {
        match step {
            CheckpointStep::Open => Ok(Some(CheckpointStep::Checkpoint)),
            CheckpointStep::Checkpoint => Ok(Some(CheckpointStep::Vacuum)),
            CheckpointStep::Vacuum => Ok(Some(CheckpointStep::Close)),
            CheckpointStep::Close => Ok(None),
        }
    } else {
        match step {
            CheckpointStep::Open => Err(CheckpointError::Open { rc }),
            CheckpointStep::Checkpoint => Err(CheckpointError::Checkpoint),
            CheckpointStep::Vacuum => Err(CheckpointError::Vacuum { rc }),
            CheckpointStep::Close => Err(CheckpointError::Close { rc }),
        }
    }
}

impl CheckpointStep {
    /// The statement that the call runs, for the two calls that run one.
    pub fn statement(&self) -> (statement: Option<&'static str>)
        ensures
            match *self {
                CheckpointStep::Checkpoint => statement == Some(CHECKPOINT_STATEMENT),
                CheckpointStep::Vacuum => statement == Some(VACUUM_STATEMENT),
                _ => statement is None,
            },
    {
        match self {
            CheckpointStep::Checkpoint => Some(CHECKPOINT_STATEMENT),
            CheckpointStep::Vacuum => Some(VACUUM_STATEMENT),
            _ => None,
        }
    }
}

impl CheckpointError {
    /// The description of the failure, without the engine's code.
    pub open spec fn spec_message(&self) -> Seq<char> {
        match *self {
            CheckpointError::InvalidPath => "invalid data path"@,
            CheckpointError::Open { .. } => "failed to open database file for checkpointing"@,
            CheckpointError::Checkpoint => "failed to checkpoint database while recovering replication log"@,
            CheckpointError::Vacuum { .. } => "failed to vacuum database after checkpointing"@,
            CheckpointError::Close { .. } => "failed to close database file after checkpointing"@,
        }
    }

    /// A description of the failure for a person to read. The engine's
    /// code, where there is one, is in the error itself.
    pub fn message(&self) -> (text: String)
        ensures
            text@ == self.spec_message(),
    {
        match self {
            CheckpointError::InvalidPath => "invalid data path".to_owned(),
            CheckpointError::Open { .. } => "failed to open database file for checkpointing".to_owned(),
            CheckpointError::Checkpoint => "failed to checkpoint database while recovering replication log".to_owned(),
            CheckpointError::Vacuum { .. } => "failed to vacuum database after checkpointing".to_owned(),
            CheckpointError::Close { .. } => "failed to close database file after checkpointing".to_owned(),
        }
    }
}

} // verus!

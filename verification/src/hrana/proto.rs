//! Messages of the client protocol that hold no SQL value: the opening and
//! closing of streams, the conditions of batch steps, column descriptions
//! and errors.

use vstd::prelude::*;

verus! {

/// Asks the server to open the stream `stream_id`.
#[derive(Clone, Copy, Debug, PartialEq, Eq, Structural)]
pub struct OpenStreamReq {
    /// The stream to open.
    pub stream_id: i32,
}

/// The server has opened the stream.
#[derive(Clone, Copy, Debug, PartialEq, Eq, Structural)]
pub struct OpenStreamResp {}

/// Asks the server to close the stream `stream_id`.
#[derive(Clone, Copy, Debug, PartialEq, Eq, Structural)]
pub struct CloseStreamReq {
    /// The stream to close.
    pub stream_id: i32,
}

/// The server has closed the stream.
#[derive(Clone, Copy, Debug, PartialEq, Eq, Structural)]
pub struct CloseStreamResp {}

/// A column of a result.
#[derive(Clone, Debug)]
pub struct Col {
    /// The name of the column, where it has one.
    pub name: Option<String>,
}

/// The condition on which a step of a batch is executed. Steps are named by
/// their index in the batch.
#[derive(Debug)]
pub enum BatchCond {
    /// The step `step` was executed and succeeded.
    StepOk { step: i32 },
    /// The step `step` was executed and failed.
    Error { step: i32 },
    /// The condition `cond` does not hold.
    Not { cond: Box<BatchCond> },
    /// All of `conds` hold.
    And { conds: Vec<BatchCond> },
    /// One of `conds` holds.
    Or { conds: Vec<BatchCond> },
}

/// An error reported by the server.
#[derive(Clone, Debug)]
pub struct Error {
    /// What went wrong, for a person to read.
    pub message: String,
}

impl Error {
    /// The text of the error: its message.
    pub fn message(&self) -> (text: &str)
        ensures
            text@ == self.message@,
    {
        self.message.as_str()
    }
}

} // verus!

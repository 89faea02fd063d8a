//! Error taxonomy: decode failures, destination-setup failures, and the
//! misuse errors of the streaming compressor lifecycle.

use vstd::prelude::*;

verus! {

/// Malformed, truncated, or size-mismatched compressed data.
#[derive(Debug, Clone)]
pub struct DecodeError {
    pub message: String,
}

impl DecodeError {
    /// The human-readable description carried by the error.
    pub fn text(&self) -> (r: String)
        ensures
            r@ == self.message@,
    {
        self.message.clone()
    }
}

/// Failure to prepare the destination of a streaming compressor.
#[derive(Debug, Clone)]
pub enum CreationError {
    /// A file already occupied the destination path and could not be removed.
    RemoveFailed(String),
    /// The destination file could not be created exclusively.
    CreateFailed(String),
}

impl CreationError {
    /// The human-readable description carried by the error.
    pub fn text(&self) -> (r: String)
        ensures
            self matches CreationError::RemoveFailed(m) ==> r@ == m@,
            self matches CreationError::CreateFailed(m) ==> r@ == m@,
    {
        match self {
            CreationError::RemoveFailed(m) => m.clone(),
            CreationError::CreateFailed(m) => m.clone(),
        }
    }
}

/// Failure of a write call on a streaming compressor.
#[derive(Debug, Clone)]
pub enum WriteError {
    /// The handle was already finalized; the write changed nothing.
    AlreadyFinished,
    /// The sink reported an I/O failure; the handle stays usable.
    Io(String),
}

impl WriteError {
    /// The human-readable description of the failure.
    pub fn text(&self) -> (r: String)
        ensures
            self is AlreadyFinished ==> r@ == "Compressor already finished or not initialized"@,
            self matches WriteError::Io(m) ==> r@ == m@,
    {
        match self {
            WriteError::AlreadyFinished => "Compressor already finished or not initialized".to_owned(),
            WriteError::Io(m) => m.clone(),
        }
    }
}

/// Failure of a finalize call on a streaming compressor.
#[derive(Debug, Clone)]
pub enum FinalizeError {
    /// The handle was already finalized once.
    AlreadyFinished,
    /// Flushing or closing the sink failed; the handle is finished anyway.
    Io(String),
}

impl FinalizeError {
    /// The human-readable description of the failure.
    pub fn text(&self) -> (r: String)
        ensures
            self is AlreadyFinished ==> r@ == "Compressor already finished or not initialized"@,
            self matches FinalizeError::Io(m) ==> r@ == m@,
    {
        match self {
            FinalizeError::AlreadyFinished => "Compressor already finished or not initialized".to_owned(),
            FinalizeError::Io(m) => m.clone(),
        }
    }
}

} // verus!

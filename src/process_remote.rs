//! The ways in which getting the log out of a target process can fail.
use crate::session::Failure;
use crate::transfer::Corruption;
use vstd::prelude::*;

verus! {

/// A part of the payload that could not be found after loading it.
#[derive(PartialEq, Eq, Structural, Clone, Copy, Debug)]
pub enum MissingPart {
    /// The loaded module, or the library handle.
    Module,
    SaveSymbol,
    FreeSymbol,
    LocationSymbol,
}

/// Why the log could not be taken from the target.
#[derive(Debug)]
pub enum ProcessRemoteError {
    /// The process does not exist, or the system refused the attach.
    AttachFailed,
    /// The engine function used as the sync point was not found.
    SyncPointNotFound,
    /// The target's byte order differs from the host's.
    ByteOrderMismatch,
    /// The target's pointer size differs from the host's.
    PointerSizeMismatch,
    /// Loading the payload or resolving its symbols failed; `diagnostic`
    /// is the target's own message where one was given.
    InjectionFailed { missing: MissingPart, diagnostic: String },
    /// Evaluating a call in the target failed.
    RemoteCallFailed,
    /// Reading or writing target memory failed.
    MemoryAccessFailed,
    /// The transfer buffer is malformed.
    CorruptData { corruption: Corruption },
    /// A string of the log is not valid UTF-16.
    NonUtf8LogContents,
    /// Any other failure, described in words.
    FailedToGetFromProcess { reason: String },
}

/// An error described in words.
pub fn base_err(reason: &str) -> (r: ProcessRemoteError)
    ensures
        r matches ProcessRemoteError::FailedToGetFromProcess { reason: s } && s@ == reason@,
{
    ProcessRemoteError::FailedToGetFromProcess { reason: String::from_str(reason) }
}

/// The error for a refused transfer buffer.
pub fn corrupt(corruption: Corruption) -> (r: ProcessRemoteError)
    ensures
        r == (ProcessRemoteError::CorruptData { corruption }),
{
    ProcessRemoteError::CorruptData { corruption }
}

/// The error for a round abandoned with `failure`; `diagnostic` is kept
/// for a failed injection.
pub fn session_error(failure: Failure, missing: MissingPart, diagnostic: String) -> (r:
    ProcessRemoteError)
    ensures
        failure == Failure::Attach ==> r == ProcessRemoteError::AttachFailed,
        failure == Failure::SyncPointNotFound ==> r == ProcessRemoteError::SyncPointNotFound,
        failure == Failure::ByteOrderMismatch ==> r == ProcessRemoteError::ByteOrderMismatch,
        failure == Failure::PointerSizeMismatch ==> r == ProcessRemoteError::PointerSizeMismatch,
        failure == Failure::Injection ==> r == (ProcessRemoteError::InjectionFailed {
            missing,
            diagnostic,
        }),
        failure == Failure::RemoteCall ==> r == ProcessRemoteError::RemoteCallFailed,
        failure == Failure::MemoryAccess ==> r == ProcessRemoteError::MemoryAccessFailed,
{
    match failure {
        Failure::Attach => ProcessRemoteError::AttachFailed,
        Failure::SyncPointNotFound => ProcessRemoteError::SyncPointNotFound,
        Failure::ByteOrderMismatch => ProcessRemoteError::ByteOrderMismatch,
        Failure::PointerSizeMismatch => ProcessRemoteError::PointerSizeMismatch,
        Failure::Injection => ProcessRemoteError::InjectionFailed { missing, diagnostic },
        Failure::RemoteCall => ProcessRemoteError::RemoteCallFailed,
        Failure::MemoryAccess => ProcessRemoteError::MemoryAccessFailed,
    }
}

impl ProcessRemoteError {
    /// A one-line description of the error.
    pub fn describe(&self) -> (r: String)
        ensures
            self is ByteOrderMismatch ==> r@ == "byte order mismatch"@,
            self is PointerSizeMismatch ==> r@ == "pointer size mismatch"@,
            self matches ProcessRemoteError::FailedToGetFromProcess { reason } ==> r@
                == "failed to get from process: "@ + reason@,
            self is NonUtf8LogContents ==> r@ == "non-utf8 log contents"@,
            self is AttachFailed ==> r@ == "failed to attach to the process"@,
            self is SyncPointNotFound ==> r@ == "sync point not found"@,
            self matches ProcessRemoteError::InjectionFailed { diagnostic, .. } ==> r@
                == "failed to load the payload: "@ + diagnostic@,
            self is RemoteCallFailed ==> r@ == "remote call failed"@,
            self is MemoryAccessFailed ==> r@ == "failed to access target memory"@,
            self is CorruptData ==> r@ == "corrupted data"@,
    {
        let text = match self {
            ProcessRemoteError::FailedToGetFromProcess { reason } => {
                let mut r = String::from_str("failed to get from process: ");
                r.append(reason.as_str());
                return r;
            },
            ProcessRemoteError::InjectionFailed { diagnostic, .. } => {
                let mut r = String::from_str("failed to load the payload: ");
                r.append(diagnostic.as_str());
                return r;
            },
            ProcessRemoteError::ByteOrderMismatch => "byte order mismatch",
            ProcessRemoteError::PointerSizeMismatch => "pointer size mismatch",
            ProcessRemoteError::NonUtf8LogContents => "non-utf8 log contents",
            ProcessRemoteError::AttachFailed => "failed to attach to the process",
            ProcessRemoteError::SyncPointNotFound => "sync point not found",
            ProcessRemoteError::RemoteCallFailed => "remote call failed",
            ProcessRemoteError::MemoryAccessFailed => "failed to access target memory",
            ProcessRemoteError::CorruptData { .. } => "corrupted data",
        };
        String::from_str(text)
    }
}

} // verus!

//! The per-call session that must be open before any subsystem query.

use vstd::prelude::*;

verus! {

/// The session was opened by this call.
pub const S_OK: i32 = 0;

/// The thread already had a session; this call did not open one.
pub const S_FALSE: i32 = 1;

/// Status of a catastrophic failure.
pub const E_UNEXPECTED: i32 = -2147418113;

/// Status of a call that ran out of memory.
pub const E_OUTOFMEMORY: i32 = -2147024882;

/// Status of a call that was handed an invalid argument.
pub const E_INVALIDARG: i32 = -2147024809;

/// Why no session was returned.
#[derive(Clone, Copy, Debug, PartialEq, Eq, Structural)]
pub enum SessionError {
    OutOfMemory,
    InvalidArgument,
    Unexpected,
    /// Any other status, kept as reported.
    Other(i32),
}

/// The error that a status other than [`S_OK`] stands for.
pub open spec fn session_error_of(code: i32) -> SessionError {
    if code == E_OUTOFMEMORY {
        SessionError::OutOfMemory
    } else if code == E_INVALIDARG {
        SessionError::InvalidArgument
    } else if code == E_UNEXPECTED {
        SessionError::Unexpected
    } else {
        SessionError::Other(code)
    }
}

impl SessionError {
    /// Names the failure that a status other than [`S_OK`] reports.
    pub fn classify(code: i32) -> (e: SessionError)
        ensures
            e == session_error_of(code),
    {
        if code == E_OUTOFMEMORY {
            SessionError::OutOfMemory
        } else if code == E_INVALIDARG {
            SessionError::InvalidArgument
        } else if code == E_UNEXPECTED {
            SessionError::Unexpected
        } else {
            SessionError::Other(code)
        }
    }

    /// The status code behind the error.
    pub fn code(&self) -> (code: i32)
        ensures
            match *self {
                SessionError::OutOfMemory => code == E_OUTOFMEMORY,
                SessionError::InvalidArgument => code == E_INVALIDARG,
                SessionError::Unexpected => code == E_UNEXPECTED,
                SessionError::Other(c) => code == c,
            },
    {
        match self {
            SessionError::OutOfMemory => E_OUTOFMEMORY,
            SessionError::InvalidArgument => E_INVALIDARG,
            SessionError::Unexpected => E_UNEXPECTED,
            SessionError::Other(c) => *c,
        }
    }
}

/// Remembers whether this call opened the thread's session, and so whether
/// it is the one that has to close it.
#[derive(Clone, Copy, Debug, PartialEq, Eq, Structural)]
pub struct ComGuard(pub bool);

impl ComGuard {
    /// True when the holder must close the session once it is done.
    pub fn must_close(&self) -> (owed: bool)
        ensures
            owed == self.0,
    {
        self.0
    }
}

/// Judges the status that opening a session returned. A negative status is a
/// failure. Of the successes only [`S_OK`] means that this call opened the
/// session; with any other the session belongs to someone else.
pub fn init_com(code: i32) -> (r: Result<ComGuard, SessionError>)
    ensures
        code >= 0 ==> r == Ok::<ComGuard, SessionError>(ComGuard(code == S_OK)),
        code < 0 ==> r == Err::<ComGuard, SessionError>(session_error_of(code)),
{
    if code >= 0 {
        Ok(ComGuard(code == S_OK))
    } else {
        Err(SessionError::classify(code))
    }
}

} // verus!

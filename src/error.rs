use vstd::prelude::*;

verus! {

/// `errno` value meaning that a non-blocking call would have had to wait (Linux).
pub const EAGAIN: i32 = 11;

/// `errno` value meaning that a descriptor is not open (Linux).
pub const EBADF: i32 = 9;

/// `errno` value of an input/output error; a read on a pseudo-terminal
/// master gets it once every slave descriptor is closed (Linux).
pub const EIO: i32 = 5;

/// The file-status flag that makes reads and writes non-blocking (Linux).
pub const O_NONBLOCK: i32 = 2048;

/// `waitpid` option: report a child that has not changed state as still running.
pub const WNOHANG: i32 = 1;

/// `waitpid` option: also report children that were stopped.
pub const WUNTRACED: i32 = 2;

/// `waitpid` option: also report stopped children that were resumed.
pub const WCONTINUED: i32 = 8;

/// An error reported by the operating system, or by the system-call layer on
/// top of it.
#[derive(Debug, Clone, Copy, PartialEq, Eq, Structural)]
pub enum OsError {
    /// The call failed and set `errno` to this value.
    Errno(i32),
    /// A path could not be handed to the system.
    InvalidPath,
    /// A string returned by the system was not valid UTF-8.
    InvalidUtf8,
    /// The operation is not available through the system-call layer.
    UnsupportedOperation,
}

impl OsError {
    /// The call would have had to wait: never surfaced, turned into a suspension.
    pub open spec fn is_would_block(self) -> bool {
        self == OsError::Errno(EAGAIN)
    }

    /// The other end of a pseudo-terminal hung up.
    pub open spec fn is_hangup(self) -> bool {
        self == OsError::Errno(EIO)
    }

    /// The descriptor named in the call was not open.
    pub open spec fn is_bad_descriptor(self) -> bool {
        self == OsError::Errno(EBADF)
    }

    pub fn would_block(&self) -> (r: bool)
        ensures
            r == self.is_would_block(),
    {
        match self {
            OsError::Errno(code) => *code == EAGAIN,
            _ => false,
        }
    }

    pub fn hangup(&self) -> (r: bool)
        ensures
            r == self.is_hangup(),
    {
        match self {
            OsError::Errno(code) => *code == EIO,
            _ => false,
        }
    }

    pub fn bad_descriptor(&self) -> (r: bool)
        ensures
            r == self.is_bad_descriptor(),
    {
        match self {
            OsError::Errno(code) => *code == EBADF,
            _ => false,
        }
    }
}

/// The error of a read or a write on a terminal.
#[derive(Debug, Clone, Copy, PartialEq, Eq, Structural)]
pub enum IoError {
    /// No readiness was reported within the reader's or writer's timeout.
    TimedOut,
    /// The system reported an error.
    Os(OsError),
}

} // verus!

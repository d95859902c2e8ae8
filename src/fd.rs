//! Ownership of one open descriptor, and the flags kept on it.
use vstd::prelude::*;
use crate::error::{OsError, EBADF, O_NONBLOCK};
use crate::traits::{Descriptor, IsAlive, SetNonblocking};
use crate::sys::{sys_close, sys_dup, sys_fcntl, sys_read, sys_write, FcntlRequest};

verus! {

/// `flags` with the non-blocking bit set when `on` holds, cleared otherwise.
pub open spec fn with_nonblocking(flags: i32, on: bool) -> i32 {
    if on {
        flags | O_NONBLOCK
    } else {
        flags & !O_NONBLOCK
    }
}

/// The file-status flags to write back so that the descriptor becomes
/// non-blocking (`on`) or blocking, all other flags kept.
pub fn nonblocking_flags(flags: i32, on: bool) -> (r: i32)
    ensures
        r == with_nonblocking(flags, on),
{
    if on {
        flags | O_NONBLOCK
    } else {
        flags & !O_NONBLOCK
    }
}

/// Switching the non-blocking bit changes that bit alone: afterwards it is set
/// exactly when asked, and every other flag is as before.
pub proof fn lemma_nonblocking_flags(flags: i32, on: bool)
    ensures
        (with_nonblocking(flags, on) & O_NONBLOCK != 0) == on,
        with_nonblocking(flags, on) & !O_NONBLOCK == flags & !O_NONBLOCK,
{
    let set = flags | 2048i32;
    let cleared = flags & !2048i32;
    assert(set & 2048i32 != 0) by (bit_vector)
        requires set == flags | 2048i32;
    assert(cleared & 2048i32 == 0) by (bit_vector)
        requires cleared == flags & !2048i32;
    assert(set & !2048i32 == flags & !2048i32) by (bit_vector)
        requires set == flags | 2048i32;
    assert(cleared & !2048i32 == flags & !2048i32) by (bit_vector)
        requires cleared == flags & !2048i32;
}

/// Switching twice is switching once: the flags written already have the
/// bit as asked, so a second switch writes them unchanged.
pub proof fn lemma_nonblocking_idempotent(flags: i32, on: bool)
    ensures
        with_nonblocking(with_nonblocking(flags, on), on) == with_nonblocking(flags, on),
{
    let set = flags | 2048i32;
    let cleared = flags & !2048i32;
    assert(set | 2048i32 == set) by (bit_vector)
        requires set == flags | 2048i32;
    assert(cleared & !2048i32 == cleared) by (bit_vector)
        requires cleared == flags & !2048i32;
}

/// The flags to write back given what reading the file-status flags
/// returned: a failed read is passed on as it came, and nothing is written.
pub fn nonblocking_update(got: Result<i32, OsError>, value: bool) -> (r: Result<i32, OsError>)
    ensures
        r == match got {
            Ok(f) => Ok(with_nonblocking(f, value)),
            Err(e) => Err(e),
        },
{
    match got {
        Ok(f) => Ok(nonblocking_flags(f, value)),
        Err(e) => Err(e),
    }
}

/// Sets (`value`) or clears the non-blocking flag of `fd`, keeping its other
/// file-status flags, and returns the flags handed to `F_SETFL` (of which
/// the bits that `nix` does not name are dropped on the way). The flags are
/// read and written back in two calls; when reading them fails, nothing is
/// written.
pub fn set_nonblocking(fd: i32, value: bool) -> (r: Result<i32, OsError>)
    ensures
        r matches Ok(f) ==> (f & O_NONBLOCK != 0) == value && with_nonblocking(f, value) == f,
{
    let got = sys_fcntl(fd, FcntlRequest::GetStatusFlags);
    match nonblocking_update(got, value) {
        Ok(flags) => {
            proof {
                let saved = got->Ok_0;
                lemma_nonblocking_flags(saved, value);
                lemma_nonblocking_idempotent(saved, value);
            }
            match sys_fcntl(fd, FcntlRequest::SetStatusFlags(flags)) {
                Ok(_) => Ok(flags),
                Err(e) => Err(e),
            }
        },
        Err(e) => Err(e),
    }
}

/// Whether `fd` names an open descriptor: its descriptor flags can be read.
pub fn is_alive(fd: i32) -> (r: bool) {
    sys_fcntl(fd, FcntlRequest::GetDescriptorFlags).is_ok()
}

/// Why closing a descriptor failed.
#[derive(Debug, Clone, Copy, PartialEq, Eq, Structural)]
pub enum CloseError {
    /// The descriptor was not open: it was closed before, a lifecycle bug
    /// that the owner must treat as fatal.
    DoubleClose,
    /// Any other failure; the descriptor is given up all the same.
    Failed(OsError),
}

/// What a `close` that returned `result` means to the descriptor's owner.
pub open spec fn close_outcome(result: Result<(), OsError>) -> Result<(), CloseError> {
    match result {
        Ok(()) => Ok(()),
        Err(e) => if e.is_bad_descriptor() {
            Err(CloseError::DoubleClose)
        } else {
            Err(CloseError::Failed(e))
        },
    }
}

/// Sorts the result of a `close`: "not open" is a double close, any other
/// failure is reported as it came.
pub fn close_verdict(result: Result<(), OsError>) -> (r: Result<(), CloseError>)
    ensures
        r == close_outcome(result),
{
    match result {
        Ok(()) => Ok(()),
        Err(e) => if e.bad_descriptor() {
            Err(CloseError::DoubleClose)
        } else {
            Err(CloseError::Failed(e))
        },
    }
}

/// Double-close detection fires only for a descriptor that is not open: a
/// close that failed for any other reason, or succeeded, is never taken for
/// one.
pub proof fn lemma_double_close_only_when_closed(result: Result<(), OsError>)
    ensures
        (close_outcome(result) == Err::<(), CloseError>(CloseError::DoubleClose))
            == (result == Err::<(), OsError>(OsError::Errno(EBADF))),
        result is Ok <==> close_outcome(result) is Ok,
{
}

/// The owner of the master end of a pseudo-terminal: one open descriptor,
/// closed once by `close` or handed back by `into_raw_fd`.
#[derive(Debug)]
pub struct PtyMaster {
    fd: i32,
}

impl PtyMaster {
    pub closed spec fn fd(&self) -> i32 {
        self.fd
    }

    /// Takes ownership of the open descriptor `fd`.
    pub fn new(fd: i32) -> (r: PtyMaster)
        ensures
            r.fd() == fd,
    {
        PtyMaster { fd }
    }

    /// Gives up ownership: the caller closes the descriptor.
    pub fn into_raw_fd(self) -> (r: i32)
        ensures
            r == self.fd(),
    {
        self.fd
    }

    /// A second, independent owner of a duplicate of the descriptor: closing
    /// either leaves the other open.
    pub fn try_clone(&self) -> (r: Result<PtyMaster, OsError>)
        ensures
            r matches Ok(m) ==> m.fd() != self.fd() && m.fd() >= 0,
    {
        match sys_dup(self.fd) {
            Ok(fd) => Ok(PtyMaster { fd }),
            Err(e) => Err(e),
        }
    }

    /// Closes the descriptor. `Err(CloseError::DoubleClose)` means it was
    /// already closed; any other failure still leaves it given up.
    pub fn close(self) -> (r: Result<(), CloseError>)
        ensures
            r matches Err(CloseError::Failed(e)) ==> !e.is_bad_descriptor(),
    {
        close_verdict(sys_close(self.fd))
    }

    /// One read(2) of at most `buf.len()` bytes; 0 at end of stream.
    pub fn read(&mut self, buf: &mut [u8]) -> (r: Result<usize, OsError>)
        ensures
            final(self).fd() == old(self).fd(),
            final(buf)@.len() == old(buf)@.len(),
            r matches Ok(n) ==> n <= old(buf)@.len(),
    {
        sys_read(self.fd, buf)
    }

    /// One write(2) of at most `buf.len()` bytes.
    pub fn write(&mut self, buf: &[u8]) -> (r: Result<usize, OsError>)
        ensures
            final(self).fd() == old(self).fd(),
            r matches Ok(n) ==> n <= buf@.len(),
    {
        sys_write(self.fd, buf)
    }

    /// Nothing is buffered here, so there is nothing to flush.
    pub fn flush(&mut self) -> (r: Result<(), OsError>)
        ensures
            final(self).fd() == old(self).fd(),
            r is Ok,
    {
        Ok(())
    }
}

impl Descriptor for PtyMaster {
    open spec fn descriptor(&self) -> i32 {
        self.fd()
    }

    fn as_raw_fd(&self) -> (r: i32) {
        self.fd
    }
}

impl IsAlive for PtyMaster {}

impl SetNonblocking for PtyMaster {}

} // verus!

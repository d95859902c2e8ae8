//! Blocking reads and writes with a bounded wait for readiness.
use vstd::prelude::*;
use crate::error::{IoError, OsError};
use crate::fd::PtyMaster;
use crate::traits::{Descriptor, IsAlive, SetNonblocking};
use crate::readiness::Direction;
use crate::sys::{sys_poll, sys_read, sys_write};

verus! {

/// What a wait for readiness that returned `polled` leaves to do: go on
/// with the call, or fail with a timeout or the wait's own error.
pub open spec fn wait_outcome(polled: Result<i32, OsError>) -> Result<(), IoError> {
    match polled {
        Ok(0) => Err(IoError::TimedOut),
        Ok(_) => Ok(()),
        Err(e) => Err(IoError::Os(e)),
    }
}

/// Reads the result of a wait for readiness: no descriptor ready means the
/// time ran out.
pub fn readiness_outcome(polled: Result<i32, OsError>) -> (r: Result<(), IoError>)
    ensures
        r == wait_outcome(polled),
{
    match polled {
        Ok(0) => Err(IoError::TimedOut),
        Ok(_) => Ok(()),
        Err(e) => Err(IoError::Os(e)),
    }
}

/// Reads from a descriptor that it does not own, waiting at most `timeout`
/// milliseconds for data (forever when negative).
#[derive(Debug, Clone)]
pub struct PtyReader {
    fd: i32,
    timeout: i32,
}

impl PtyReader {
    pub closed spec fn fd(&self) -> i32 {
        self.fd
    }

    pub closed spec fn timeout(&self) -> i32 {
        self.timeout
    }

    /// A reader of `fd` that waits forever.
    pub fn new(fd: i32) -> (r: PtyReader)
        ensures
            r.fd() == fd,
            r.timeout() == -1,
    {
        PtyReader { fd, timeout: -1 }
    }

    pub fn set_timeout(&mut self, value: i32) -> (r: Result<(), IoError>)
        ensures
            r is Ok,
            final(self).fd() == old(self).fd(),
            final(self).timeout() == value,
    {
        self.timeout = value;
        Ok(())
    }

    pub fn get_timeout(&self) -> (r: i32)
        ensures
            r == self.timeout(),
    {
        self.timeout
    }

    /// Waits for data, then makes one read(2) into `buf`; 0 at end of stream.
    pub fn read(&mut self, buf: &mut [u8]) -> (r: Result<usize, IoError>)
        ensures
            *final(self) == *old(self),
            final(buf)@.len() == old(buf)@.len(),
            r matches Ok(n) ==> n <= old(buf)@.len(),
            r == Err::<usize, IoError>(IoError::TimedOut) ==> final(buf)@ == old(buf)@,
    {
        match readiness_outcome(sys_poll(self.fd, Direction::Read, self.timeout)) {
            Ok(()) => match sys_read(self.fd, buf) {
                Ok(n) => Ok(n),
                Err(e) => Err(IoError::Os(e)),
            },
            Err(e) => Err(e),
        }
    }
}

/// Writes to a descriptor that it does not own, waiting at most `timeout`
/// milliseconds for room (forever when negative).
#[derive(Debug, Clone)]
pub struct PtyWriter {
    fd: i32,
    timeout: i32,
}

impl PtyWriter {
    pub closed spec fn fd(&self) -> i32 {
        self.fd
    }

    pub closed spec fn timeout(&self) -> i32 {
        self.timeout
    }

    /// A writer to `fd` that waits forever.
    pub fn new(fd: i32) -> (r: PtyWriter)
        ensures
            r.fd() == fd,
            r.timeout() == -1,
    {
        PtyWriter { fd, timeout: -1 }
    }

    pub fn set_timeout(&mut self, value: i32) -> (r: Result<(), IoError>)
        ensures
            r is Ok,
            final(self).fd() == old(self).fd(),
            final(self).timeout() == value,
    {
        self.timeout = value;
        Ok(())
    }

    pub fn get_timeout(&self) -> (r: i32)
        ensures
            r == self.timeout(),
    {
        self.timeout
    }

    /// Waits for room, then makes one write(2) of `buf`.
    pub fn write(&mut self, buf: &[u8]) -> (r: Result<usize, IoError>)
        ensures
            *final(self) == *old(self),
            r matches Ok(n) ==> n <= buf@.len(),
    {
        match readiness_outcome(sys_poll(self.fd, Direction::Write, self.timeout)) {
            Ok(()) => match sys_write(self.fd, buf) {
                Ok(n) => Ok(n),
                Err(e) => Err(IoError::Os(e)),
            },
            Err(e) => Err(e),
        }
    }

    /// Nothing is buffered, so there is nothing to flush.
    pub fn flush(&mut self) -> (r: Result<(), IoError>)
        ensures
            r is Ok,
            *final(self) == *old(self),
    {
        Ok(())
    }
}

impl Descriptor for PtyReader {
    open spec fn descriptor(&self) -> i32 {
        self.fd()
    }

    fn as_raw_fd(&self) -> (r: i32) {
        self.fd
    }
}

impl IsAlive for PtyReader {}

impl SetNonblocking for PtyReader {}

impl Descriptor for PtyWriter {
    open spec fn descriptor(&self) -> i32 {
        self.fd()
    }

    fn as_raw_fd(&self) -> (r: i32) {
        self.fd
    }
}

impl IsAlive for PtyWriter {}

impl SetNonblocking for PtyWriter {}

impl PtyMaster {
    /// A reader of this descriptor that waits forever, if it is open.
    pub fn get_reader(&self) -> (r: Option<PtyReader>)
        ensures
            r matches Some(reader) ==> reader.fd() == self.fd() && reader.timeout() == -1,
    {
        if self.is_alive() {
            Some(PtyReader::new(self.as_raw_fd()))
        } else {
            None
        }
    }

    /// A writer to this descriptor that waits forever, if it is open.
    pub fn get_writer(&self) -> (r: Option<PtyWriter>)
        ensures
            r matches Some(writer) ==> writer.fd() == self.fd() && writer.timeout() == -1,
    {
        if self.is_alive() {
            Some(PtyWriter::new(self.as_raw_fd()))
        } else {
            None
        }
    }
}

} // verus!

//! Suspend-capable reads and writes on a non-blocking descriptor, driven by
//! a reactor that reports readiness.
//!
//! A poll either moves bytes with one system call, or suspends; a suspended
//! direction is tried again only after `readiness_event` has reported it
//! ready. Nothing is buffered: each ready poll moves at most one call's worth
//! of bytes, and flushing has nothing to do.
use vstd::prelude::*;
use crate::error::{OsError, EBADF};
use crate::fd::{set_nonblocking, CloseError, PtyMaster};
use crate::readiness::{Direction, IoPoll, PollAction, Registration, Wakeups};
use crate::traits::{Descriptor, SetNonblocking};
use crate::sys::{sys_read, sys_write};

verus! {

/// Polls a read in `reg` on `fd` into `buf`.
fn poll_read_on(fd: i32, reg: &mut Registration, buf: &mut [u8]) -> (p: IoPoll)
    ensures
        final(buf)@.len() == old(buf)@.len(),
        p matches IoPoll::Ready(n) ==> n <= old(buf)@.len(),
        p matches IoPoll::Failed(e) ==> !e.is_would_block() && !e.is_hangup(),
        !old(reg).read.ready ==> p == IoPoll::Pending && final(buf)@ == old(buf)@
            && *final(reg) == old(reg).begin_spec(Direction::Read).0,
        old(reg).read.ready ==> *final(reg) == if p is Pending {
            old(reg).would_block_spec(Direction::Read)
        } else {
            old(reg).begin_spec(Direction::Read).0
        },
{
    match reg.begin(Direction::Read) {
        PollAction::Suspend => IoPoll::Pending,
        PollAction::Attempt => {
            let result = sys_read(fd, buf);
            reg.complete(Direction::Read, result)
        },
    }
}

/// Polls a write in `reg` of `buf` on `fd`.
fn poll_write_on(fd: i32, reg: &mut Registration, buf: &[u8]) -> (p: IoPoll)
    ensures
        p matches IoPoll::Ready(n) ==> n <= buf@.len(),
        p matches IoPoll::Failed(e) ==> !e.is_would_block(),
        !old(reg).write.ready ==> p == IoPoll::Pending
            && *final(reg) == old(reg).begin_spec(Direction::Write).0,
        old(reg).write.ready ==> *final(reg) == if p is Pending {
            old(reg).would_block_spec(Direction::Write)
        } else {
            old(reg).begin_spec(Direction::Write).0
        },
{
    match reg.begin(Direction::Write) {
        PollAction::Suspend => IoPoll::Pending,
        PollAction::Attempt => {
            let result = sys_write(fd, buf);
            reg.complete(Direction::Write, result)
        },
    }
}

/// The reading half over a descriptor that it does not own.
pub struct AsyncReader {
    fd: i32,
    registration: Registration,
}

impl AsyncReader {
    pub closed spec fn fd(&self) -> i32 {
        self.fd
    }

    pub closed spec fn reg(&self) -> Registration {
        self.registration
    }

    /// Makes `fd` non-blocking and starts a fresh registration for it.
    pub fn new(fd: i32) -> (r: Result<AsyncReader, OsError>)
        ensures
            r matches Ok(a) ==> a.fd() == fd && a.reg() == Registration::fresh(),
    {
        match set_nonblocking(fd, true) {
            Ok(_) => Ok(AsyncReader { fd, registration: Registration::new() }),
            Err(e) => Err(e),
        }
    }

    pub fn registration(&self) -> (r: Registration)
        ensures
            r == self.reg(),
    {
        self.registration
    }

    /// One poll of a read into `buf`: `Ready(0)` is end of stream.
    pub fn poll_read(&mut self, buf: &mut [u8]) -> (p: IoPoll)
        ensures
            final(self).fd() == old(self).fd(),
            final(buf)@.len() == old(buf)@.len(),
            p matches IoPoll::Ready(n) ==> n <= old(buf)@.len(),
            p matches IoPoll::Failed(e) ==> !e.is_would_block() && !e.is_hangup(),
            !old(self).reg().read.ready ==> p == IoPoll::Pending && final(buf)@ == old(buf)@
                && final(self).reg() == old(self).reg().begin_spec(Direction::Read).0,
            old(self).reg().read.ready ==> final(self).reg() == if p is Pending {
                old(self).reg().would_block_spec(Direction::Read)
            } else {
                old(self).reg().begin_spec(Direction::Read).0
            },
    {
        poll_read_on(self.fd, &mut self.registration, buf)
    }

    /// The reactor reports the descriptor readable (or not); says whether to
    /// wake the suspended reader.
    pub fn readiness_event(&mut self, readable: bool) -> (wake: bool)
        ensures
            final(self).fd() == old(self).fd(),
            (final(self).reg(), Wakeups { read: wake, write: false })
                == old(self).reg().event_spec(readable, false),
    {
        self.registration.on_event(readable, false).read
    }
}

/// The writing half over a descriptor that it does not own.
pub struct AsyncWriter {
    fd: i32,
    registration: Registration,
}

impl AsyncWriter {
    pub closed spec fn fd(&self) -> i32 {
        self.fd
    }

    pub closed spec fn reg(&self) -> Registration {
        self.registration
    }

    /// Makes `fd` non-blocking and starts a fresh registration for it.
    pub fn new(fd: i32) -> (r: Result<AsyncWriter, OsError>)
        ensures
            r matches Ok(a) ==> a.fd() == fd && a.reg() == Registration::fresh(),
    {
        match set_nonblocking(fd, true) {
            Ok(_) => Ok(AsyncWriter { fd, registration: Registration::new() }),
            Err(e) => Err(e),
        }
    }

    pub fn registration(&self) -> (r: Registration)
        ensures
            r == self.reg(),
    {
        self.registration
    }

    /// One poll of a write of `buf`.
    pub fn poll_write(&mut self, buf: &[u8]) -> (p: IoPoll)
        ensures
            final(self).fd() == old(self).fd(),
            p matches IoPoll::Ready(n) ==> n <= buf@.len(),
            p matches IoPoll::Failed(e) ==> !e.is_would_block(),
            !old(self).reg().write.ready ==> p == IoPoll::Pending
                && final(self).reg() == old(self).reg().begin_spec(Direction::Write).0,
            old(self).reg().write.ready ==> final(self).reg() == if p is Pending {
                old(self).reg().would_block_spec(Direction::Write)
            } else {
                old(self).reg().begin_spec(Direction::Write).0
            },
    {
        poll_write_on(self.fd, &mut self.registration, buf)
    }

    /// Nothing is buffered: flushing is done at once.
    pub fn poll_flush(&mut self) -> (r: Result<(), OsError>)
        ensures
            r is Ok,
            final(self).fd() == old(self).fd(),
            final(self).reg() == old(self).reg(),
    {
        Ok(())
    }

    /// Shutting the writer down has nothing to release: done at once.
    pub fn poll_shutdown(&mut self) -> (r: Result<(), OsError>)
        ensures
            r is Ok,
            final(self).fd() == old(self).fd(),
            final(self).reg() == old(self).reg(),
    {
        Ok(())
    }

    /// The reactor reports the descriptor writable (or not); says whether to
    /// wake the suspended writer.
    pub fn readiness_event(&mut self, writable: bool) -> (wake: bool)
        ensures
            final(self).fd() == old(self).fd(),
            (final(self).reg(), Wakeups { read: false, write: wake })
                == old(self).reg().event_spec(false, writable),
    {
        self.registration.on_event(false, writable).write
    }
}

/// The owner of a non-blocking pseudo-terminal master, read and written
/// through one registration shared by both directions.
pub struct AsyncPtyMaster {
    master: PtyMaster,
    registration: Registration,
}

impl AsyncPtyMaster {
    pub closed spec fn fd(&self) -> i32 {
        self.master.fd()
    }

    pub closed spec fn reg(&self) -> Registration {
        self.registration
    }

    /// Makes `master` non-blocking; on failure hands it back with the error.
    pub fn new(master: PtyMaster) -> (r: Result<AsyncPtyMaster, (PtyMaster, OsError)>)
        ensures
            r matches Ok(a) ==> a.fd() == master.fd() && a.reg() == Registration::fresh(),
            r matches Err((m, _)) ==> m.fd() == master.fd(),
    {
        match set_nonblocking(master.as_raw_fd(), true) {
            Ok(_) => Ok(AsyncPtyMaster { master, registration: Registration::new() }),
            Err(e) => Err((master, e)),
        }
    }

    /// A non-blocking owner of a duplicate of the descriptor, with its own
    /// registration. A duplicate that cannot be made non-blocking is closed;
    /// if it turns out closed already, that is reported as `EBADF`.
    pub fn try_clone(&self) -> (r: Result<AsyncPtyMaster, OsError>)
        ensures
            r matches Ok(a) ==> a.fd() != self.fd() && a.reg() == Registration::fresh(),
    {
        match self.master.try_clone() {
            Ok(copy) => match AsyncPtyMaster::new(copy) {
                Ok(a) => Ok(a),
                Err((m, e)) => match m.close() {
                    Err(CloseError::DoubleClose) => Err(OsError::Errno(EBADF)),
                    _ => Err(e),
                },
            },
            Err(e) => Err(e),
        }
    }

    pub fn registration(&self) -> (r: Registration)
        ensures
            r == self.reg(),
    {
        self.registration
    }

    /// Gives the descriptor's ownership back, ending the registration.
    pub fn into_master(self) -> (r: PtyMaster)
        ensures
            r.fd() == self.fd(),
    {
        self.master
    }

    /// Ends the registration and closes the descriptor.
    pub fn close(self) -> (r: Result<(), CloseError>)
        ensures
            r matches Err(CloseError::Failed(e)) ==> !e.is_bad_descriptor(),
    {
        self.master.close()
    }

    /// One poll of a read into `buf`: `Ready(0)` is end of stream.
    pub fn poll_read(&mut self, buf: &mut [u8]) -> (p: IoPoll)
        ensures
            final(self).fd() == old(self).fd(),
            final(buf)@.len() == old(buf)@.len(),
            p matches IoPoll::Ready(n) ==> n <= old(buf)@.len(),
            p matches IoPoll::Failed(e) ==> !e.is_would_block() && !e.is_hangup(),
            !old(self).reg().read.ready ==> p == IoPoll::Pending && final(buf)@ == old(buf)@
                && final(self).reg() == old(self).reg().begin_spec(Direction::Read).0,
            old(self).reg().read.ready ==> final(self).reg() == if p is Pending {
                old(self).reg().would_block_spec(Direction::Read)
            } else {
                old(self).reg().begin_spec(Direction::Read).0
            },
    {
        let fd = self.master.as_raw_fd();
        poll_read_on(fd, &mut self.registration, buf)
    }

    /// One poll of a write of `buf`.
    pub fn poll_write(&mut self, buf: &[u8]) -> (p: IoPoll)
        ensures
            final(self).fd() == old(self).fd(),
            p matches IoPoll::Ready(n) ==> n <= buf@.len(),
            p matches IoPoll::Failed(e) ==> !e.is_would_block(),
            !old(self).reg().write.ready ==> p == IoPoll::Pending
                && final(self).reg() == old(self).reg().begin_spec(Direction::Write).0,
            old(self).reg().write.ready ==> final(self).reg() == if p is Pending {
                old(self).reg().would_block_spec(Direction::Write)
            } else {
                old(self).reg().begin_spec(Direction::Write).0
            },
    {
        let fd = self.master.as_raw_fd();
        poll_write_on(fd, &mut self.registration, buf)
    }

    /// Nothing is buffered: flushing is done at once.
    pub fn poll_flush(&mut self) -> (r: Result<(), OsError>)
        ensures
            r is Ok,
            final(self).fd() == old(self).fd(),
            final(self).reg() == old(self).reg(),
    {
        Ok(())
    }

    /// Shutting down has nothing to release: done at once.
    pub fn poll_shutdown(&mut self) -> (r: Result<(), OsError>)
        ensures
            r is Ok,
            final(self).fd() == old(self).fd(),
            final(self).reg() == old(self).reg(),
    {
        Ok(())
    }

    /// The reactor reports readiness; says which suspended tasks to wake.
    pub fn readiness_event(&mut self, readable: bool, writable: bool) -> (w: Wakeups)
        ensures
            final(self).fd() == old(self).fd(),
            (final(self).reg(), w) == old(self).reg().event_spec(readable, writable),
    {
        self.registration.on_event(readable, writable)
    }
}

} // verus!

verus! {

impl Descriptor for AsyncReader {
    open spec fn descriptor(&self) -> i32 {
        self.fd()
    }

    fn as_raw_fd(&self) -> (r: i32) {
        self.fd
    }
}

impl SetNonblocking for AsyncReader {}

impl Descriptor for AsyncWriter {
    open spec fn descriptor(&self) -> i32 {
        self.fd()
    }

    fn as_raw_fd(&self) -> (r: i32) {
        self.fd
    }
}

impl SetNonblocking for AsyncWriter {}

impl Descriptor for AsyncPtyMaster {
    open spec fn descriptor(&self) -> i32 {
        self.fd()
    }

    fn as_raw_fd(&self) -> (r: i32) {
        self.master.as_raw_fd()
    }
}

impl SetNonblocking for AsyncPtyMaster {}

impl PtyMaster {
    /// A non-blocking reader of this descriptor, or why it could not be
    /// made non-blocking (a closed descriptor among others).
    pub fn get_async_reader(&self) -> (r: Result<AsyncReader, OsError>)
        ensures
            r matches Ok(a) ==> a.fd() == self.fd() && a.reg() == Registration::fresh(),
    {
        AsyncReader::new(self.as_raw_fd())
    }

    /// A non-blocking writer to this descriptor, or why it could not be
    /// made non-blocking (a closed descriptor among others).
    pub fn get_async_writer(&self) -> (r: Result<AsyncWriter, OsError>)
        ensures
            r matches Ok(a) ==> a.fd() == self.fd() && a.reg() == Registration::fresh(),
    {
        AsyncWriter::new(self.as_raw_fd())
    }
}

} // verus!

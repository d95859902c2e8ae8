//! The system calls this crate makes, each through `nix`.
use vstd::prelude::*;
use crate::error::{OsError, WCONTINUED, WNOHANG};
use crate::child::ExitStatus;
use crate::readiness::Direction;
use nix::sys::wait::{waitpid, WaitPidFlag, WaitStatus as W};
use nix::fcntl::{fcntl, FcntlArg, OFlag};
use nix::poll::{poll, PollFd, PollFlags};

verus! {

/// What `sys_fcntl` asks of a descriptor.
pub(crate) enum FcntlRequest {
    GetDescriptorFlags,
    GetStatusFlags,
    SetStatusFlags(i32),
}

#[verifier::external_type_specification]
#[verifier::external_body]
pub struct ExNixError(nix::Error);

/// Relies on the variants of `nix::Error`: each becomes the variant of the
/// same name, an `Errno` kept as its number.
#[verifier::external_body]
fn os_error(e: nix::Error) -> OsError {
    match e {
        nix::Error::Sys(errno) => OsError::Errno(errno as i32),
        nix::Error::InvalidPath => OsError::InvalidPath,
        nix::Error::InvalidUtf8 => OsError::InvalidUtf8,
        nix::Error::UnsupportedOperation => OsError::UnsupportedOperation,
    }
}

/// Relies on `nix::unistd::read`, which hands `buf.len()` to read(2): at most
/// that many bytes come in, and the buffer keeps its length.
#[verifier::external_body]
pub(crate) fn sys_read(fd: i32, buf: &mut [u8]) -> (r: Result<usize, OsError>)
    ensures
        final(buf)@.len() == old(buf)@.len(),
        r matches Ok(n) ==> n <= old(buf)@.len(),
{
    nix::unistd::read(fd, buf).map_err(os_error)
}


#[verifier::external_type_specification]
#[verifier::external_body]
pub struct ExWaitStatus(W);

/// Relies on the variants of `nix::sys::wait::WaitStatus`: each becomes the
/// variant of the same name without its pid, a signal kept as its number.
#[verifier::external_body]
fn exit_status(s: W) -> ExitStatus {
    match s {
        W::Exited(_, code) => ExitStatus::Exited(code),
        W::Signaled(_, sig, core) => ExitStatus::Signaled(sig as i32, core),
        W::Stopped(_, sig) => ExitStatus::Stopped(sig as i32),
        W::PtraceEvent(_, sig, event) => ExitStatus::PtraceEvent(sig as i32, event),
        W::PtraceSyscall(_) => ExitStatus::PtraceSyscall,
        W::Continued(_) => ExitStatus::Continued,
        W::StillAlive => ExitStatus::StillRunning,
    }
}

/// Relies on `nix::unistd::write`, which hands `buf.len()` to write(2): at
/// most that many bytes go out.
#[verifier::external_body]
pub(crate) fn sys_write(fd: i32, buf: &[u8]) -> (r: Result<usize, OsError>)
    ensures
        r matches Ok(n) ==> n <= buf@.len(),
{
    nix::unistd::write(fd, buf).map_err(os_error)
}

/// Relies on `nix::unistd::dup`: on success a new descriptor, distinct from
/// the open `fd` it duplicates (dup(2)).
#[verifier::external_body]
pub(crate) fn sys_dup(fd: i32) -> (r: Result<i32, OsError>)
    ensures
        r matches Ok(n) ==> n >= 0 && n != fd,
{
    nix::unistd::dup(fd).map_err(os_error)
}

/// Relies on `nix::unistd::close`.
#[verifier::external_body]
pub(crate) fn sys_close(fd: i32) -> (r: Result<(), OsError>) {
    nix::unistd::close(fd).map_err(os_error)
}

/// Relies on `nix::fcntl::fcntl` with `F_GETFD`, `F_GETFL` and `F_SETFL`; the
/// flags set are those of `flags` that `nix::fcntl::OFlag` names. The two
/// reads return the flags, never negative, and `F_SETFL` returns 0 (fcntl(2)).
#[verifier::external_body]
pub(crate) fn sys_fcntl(fd: i32, request: FcntlRequest) -> (r: Result<i32, OsError>)
    ensures
        r matches Ok(n) ==> n >= 0,
        r matches Ok(n) ==> (request is SetStatusFlags ==> n == 0),
{
    let arg = match request {
        FcntlRequest::GetDescriptorFlags => FcntlArg::F_GETFD,
        FcntlRequest::GetStatusFlags => FcntlArg::F_GETFL,
        FcntlRequest::SetStatusFlags(flags) => FcntlArg::F_SETFL(OFlag::from_bits_truncate(flags)),
    };
    fcntl(fd, arg).map_err(os_error)
}

/// Relies on `nix::poll::poll` on the one descriptor `fd`, waiting for it to
/// become readable or writable for at most `timeout` milliseconds (forever
/// when negative): 0 when the time ran out, else the number of descriptors
/// with events, here at most 1 (poll(2)).
#[verifier::external_body]
pub(crate) fn sys_poll(fd: i32, direction: Direction, timeout: i32) -> (r: Result<i32, OsError>)
    ensures
        r matches Ok(n) ==> 0 <= n <= 1,
{
    let events = match direction {
        Direction::Read => PollFlags::POLLIN,
        Direction::Write => PollFlags::POLLOUT,
    };
    poll(&mut [PollFd::new(fd, events)], timeout).map_err(os_error)
}

/// Relies on `nix::sys::wait::waitpid` for the child `pid` with the option
/// bits `options`: an exit code is the low byte of the code the child passed
/// to `exit`, a signal lies between 1 and 31, and the child is reported
/// still running only with `WNOHANG` (waitpid(2)) and resumed only with
/// `WCONTINUED` (as `WaitStatus` documents). A stop may come without
/// `WUNTRACED`: a traced child's stops are always reported.
#[verifier::external_body]
pub(crate) fn sys_waitpid(pid: i32, options: i32) -> (r: Result<ExitStatus, OsError>)
    ensures
        r matches Ok(ExitStatus::Exited(code)) ==> 0 <= code <= 255,
        r matches Ok(ExitStatus::Signaled(sig, _)) ==> 0 < sig < 32,
        r matches Ok(ExitStatus::Stopped(sig)) ==> 0 < sig < 32,
        r matches Ok(ExitStatus::PtraceEvent(sig, _)) ==> 0 < sig < 32,
        r matches Ok(ExitStatus::StillRunning) ==> options & WNOHANG != 0,
        r matches Ok(ExitStatus::Continued) ==> options & WCONTINUED != 0,
{
    let flags = WaitPidFlag::from_bits_truncate(options);
    waitpid(nix::unistd::Pid::from_raw(pid), Some(flags)).map(exit_status).map_err(os_error)
}

} // verus!

use forkpty::{
    close_verdict, nonblocking_update, nonblocking_flags, readiness_outcome, resize_outcome, CloseError, Direction,
    ExitPoll, ExitStatus, ExitWaiter, IoError, OsError, PollAction, Readiness, Registration,
    Wakeups, WindowSize, EAGAIN, EBADF, EIO, O_NONBLOCK, WCONTINUED, WNOHANG, WUNTRACED,
};

#[test]
fn constants_match_the_platform() {
    assert_eq!(EAGAIN, libc::EAGAIN);
    assert_eq!(EBADF, libc::EBADF);
    assert_eq!(EIO, libc::EIO);
    assert_eq!(O_NONBLOCK, libc::O_NONBLOCK);
    assert_eq!(WNOHANG, libc::WNOHANG);
    assert_eq!(WUNTRACED, libc::WUNTRACED);
    assert_eq!(WCONTINUED, libc::WCONTINUED);
}

#[test]
fn nonblocking_bit_set_and_cleared() {
    assert_eq!(nonblocking_flags(2, true), 2 | 2048);
    assert_eq!(nonblocking_flags(2 | 2048, false), 2);
    assert_eq!(nonblocking_flags(2 | 2048, true), 2 | 2048);
    assert_eq!(nonblocking_flags(0, false), 0);
    assert_eq!(nonblocking_flags(-1, false), -1 & !2048);
}

#[test]
fn close_results_sorted() {
    assert_eq!(close_verdict(Ok(())), Ok(()));
    assert_eq!(close_verdict(Err(OsError::Errno(EBADF))), Err(CloseError::DoubleClose));
    assert_eq!(
        close_verdict(Err(OsError::Errno(libc::EIO))),
        Err(CloseError::Failed(OsError::Errno(libc::EIO)))
    );
    assert_eq!(
        close_verdict(Err(OsError::Errno(libc::EINTR))),
        Err(CloseError::Failed(OsError::Errno(libc::EINTR)))
    );
}

#[test]
fn resize_failure_is_typed() {
    assert_eq!(resize_outcome(-1, EBADF), Err(OsError::Errno(EBADF)));
    assert_eq!(resize_outcome(-1, libc::ENOTTY), Err(OsError::Errno(libc::ENOTTY)));
    assert_eq!(resize_outcome(0, 0), Ok(()));
    let w = WindowSize::new(34, 125, 0, 0);
    assert_eq!(w.rows, 34);
    assert_eq!(w.cols, 125);
    assert_eq!(w.x_pixels, 0);
    assert_eq!(w.y_pixels, 0);
}

#[test]
fn bounded_wait_outcomes() {
    assert_eq!(readiness_outcome(Ok(0)), Err(IoError::TimedOut));
    assert_eq!(readiness_outcome(Ok(1)), Ok(()));
    assert_eq!(
        readiness_outcome(Err(OsError::Errno(EBADF))),
        Err(IoError::Os(OsError::Errno(EBADF)))
    );
}

#[test]
fn registration_starts_optimistic() {
    let mut reg = Registration::new();
    let fresh = Readiness { interested: false, ready: true, waiting: false };
    assert_eq!(reg.read, fresh);
    assert_eq!(reg.write, fresh);
    assert_eq!(reg.begin(Direction::Read), PollAction::Attempt);
    assert_eq!(reg.read, Readiness { interested: true, ready: true, waiting: false });
    assert_eq!(reg.write, fresh);
}

#[test]
fn would_block_suspends_without_waking() {
    let mut reg = Registration::new();
    assert_eq!(reg.begin(Direction::Read), PollAction::Attempt);
    assert_eq!(reg.complete(Direction::Read, Err(OsError::Errno(EAGAIN))), forkpty::IoPoll::Pending);
    let parked = Readiness { interested: true, ready: false, waiting: true };
    assert_eq!(reg.read, parked);
    for _ in 0..5 {
        assert_eq!(reg.begin(Direction::Read), PollAction::Suspend);
        assert_eq!(reg.read, parked);
    }
    assert_eq!(reg.on_event(false, false), Wakeups { read: false, write: false });
    assert_eq!(reg.on_event(false, true), Wakeups { read: false, write: false });
    assert_eq!(reg.begin(Direction::Read), PollAction::Suspend);
    assert_eq!(reg.on_event(true, false), Wakeups { read: true, write: false });
    assert_eq!(reg.on_event(true, false), Wakeups { read: false, write: false });
    assert_eq!(reg.begin(Direction::Read), PollAction::Attempt);
}

#[test]
fn completed_calls_classified() {
    let mut reg = Registration::new();
    assert_eq!(reg.complete(Direction::Write, Ok(5)), forkpty::IoPoll::Ready(5));
    assert_eq!(reg.complete(Direction::Read, Ok(0)), forkpty::IoPoll::Ready(0));
    assert_eq!(reg.complete(Direction::Read, Err(OsError::Errno(EIO))), forkpty::IoPoll::Ready(0));
    assert_eq!(
        reg.complete(Direction::Write, Err(OsError::Errno(EIO))),
        forkpty::IoPoll::Failed(OsError::Errno(EIO))
    );
    assert_eq!(
        reg.complete(Direction::Read, Err(OsError::Errno(libc::EINVAL))),
        forkpty::IoPoll::Failed(OsError::Errno(libc::EINVAL))
    );
    assert_eq!(reg, Registration::new());
    assert_eq!(reg.complete(Direction::Write, Err(OsError::Errno(EAGAIN))), forkpty::IoPoll::Pending);
    assert_eq!(reg.write, Readiness { interested: true, ready: false, waiting: true });
    assert_eq!(reg.read, Readiness { interested: false, ready: true, waiting: false });
}

#[test]
fn waiter_resolves_with_exit_code() {
    let mut w = ExitWaiter::new(4242);
    assert_eq!(w.on_status(Ok(ExitStatus::StillRunning)), ExitPoll::Pending);
    assert!(!w.is_resolved());
    assert_eq!(w.on_status(Ok(ExitStatus::StillRunning)), ExitPoll::Pending);
    assert_eq!(w.on_status(Ok(ExitStatus::Exited(7))), ExitPoll::Ready(ExitStatus::Exited(7)));
    assert!(w.is_resolved());
    assert_eq!(w.pid_of(), 4242);
}

#[test]
fn waiter_resolves_with_signal() {
    let mut w = ExitWaiter::new(4243);
    assert_eq!(
        w.on_status(Ok(ExitStatus::Signaled(9, false))),
        ExitPoll::Ready(ExitStatus::Signaled(9, false))
    );
    assert!(w.is_resolved());
}

#[test]
fn waiter_query_error_is_terminal() {
    let mut w = ExitWaiter::new(4244);
    assert_eq!(
        w.on_status(Err(OsError::Errno(libc::ECHILD))),
        ExitPoll::Failed(OsError::Errno(libc::ECHILD))
    );
    assert!(w.is_resolved());
}

#[test]
fn coalesced_exits_resolve_both() {
    let mut a = ExitWaiter::new(100);
    let mut b = ExitWaiter::new(101);
    let pa = a.on_status(Ok(ExitStatus::Exited(7)));
    let pb = b.on_status(Ok(ExitStatus::Signaled(9, false)));
    assert_eq!(pa, ExitPoll::Ready(ExitStatus::Exited(7)));
    assert_eq!(pb, ExitPoll::Ready(ExitStatus::Signaled(9, false)));
    assert_ne!(pa, pb);
    assert!(a.is_resolved() && b.is_resolved());
}

#[test]
fn flag_update_passes_read_failure_on() {
    assert_eq!(nonblocking_update(Ok(2), true), Ok(2 | 2048));
    assert_eq!(nonblocking_update(Ok(2 | 2048), false), Ok(2));
    assert_eq!(nonblocking_update(Err(OsError::Errno(EBADF)), true), Err(OsError::Errno(EBADF)));
    let once = nonblocking_flags(0o100002, true);
    assert_eq!(nonblocking_flags(once, true), once);
}

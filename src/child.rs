use vstd::prelude::*;
use crate::error::{OsError, WCONTINUED, WNOHANG};
use crate::sys::sys_waitpid;

verus! {

/// How a child process changed state, as `waitpid` reports it.
#[derive(Debug, Clone, Copy, PartialEq, Eq, Structural)]
pub enum ExitStatus {
    /// The child called `exit` with this code.
    Exited(i32),
    /// The child was killed by this signal; the flag tells whether it dumped core.
    Signaled(i32, bool),
    /// The child was stopped by this signal.
    Stopped(i32),
    /// The traced child stopped at a ptrace event: the signal and the event.
    PtraceEvent(i32, i32),
    /// The traced child stopped at a system call.
    PtraceSyscall,
    /// The stopped child was resumed.
    Continued,
    /// The child has not changed state yet.
    StillRunning,
}


/// The statuses that end a wait: anything but "still running".
pub open spec fn is_final(q: Result<ExitStatus, OsError>) -> bool {
    !(q matches Ok(ExitStatus::StillRunning))
}

/// A status as `waitpid` may report it: exit codes are one byte, signals
/// lie between 1 and 31.
pub open spec fn well_formed(s: ExitStatus) -> bool {
    match s {
        ExitStatus::Exited(code) => 0 <= code <= 255,
        ExitStatus::Signaled(sig, _) => 0 < sig < 32,
        ExitStatus::Stopped(sig) => 0 < sig < 32,
        ExitStatus::PtraceEvent(sig, _) => 0 < sig < 32,
        _ => true,
    }
}

/// The result of one poll of an exit waiter.
#[derive(Debug, Clone, Copy, PartialEq, Eq, Structural)]
pub enum ExitPoll {
    /// The child still runs: wait for the next termination notification.
    Pending,
    /// The wait is over: the child's status.
    Ready(ExitStatus),
    /// The wait is over: the status could not be had (no such child, or it
    /// was already reaped).
    Failed(OsError),
}

impl ExitPoll {
    pub open spec fn is_done(self) -> bool {
        !(self is Pending)
    }
}

/// What a status query that returned `q` makes of a poll.
pub open spec fn exit_step(q: Result<ExitStatus, OsError>) -> ExitPoll {
    match q {
        Ok(ExitStatus::StillRunning) => ExitPoll::Pending,
        Ok(s) => ExitPoll::Ready(s),
        Err(e) => ExitPoll::Failed(e),
    }
}

/// Waits, without blocking, for one child to change state.
///
/// Termination notifications are process-wide and coalesce, so they say
/// neither which child ended nor how many did: on every wake the waiter asks
/// for its own child's status, whether or not a notification came. It
/// resolves once and must not be polled after that.
#[derive(Debug)]
pub struct ExitWaiter {
    pid: i32,
    resolved: bool,
}

impl ExitWaiter {
    pub closed spec fn pid(&self) -> i32 {
        self.pid
    }

    pub closed spec fn resolved(&self) -> bool {
        self.resolved
    }

    /// A waiter for the child `pid`; a pid of 0 or less would name a group
    /// of children, not one.
    pub fn new(pid: i32) -> (w: ExitWaiter)
        requires
            pid > 0,
        ensures
            w.pid() == pid,
            !w.resolved(),
    {
        ExitWaiter { pid, resolved: false }
    }

    pub fn pid_of(&self) -> (r: i32)
        ensures
            r == self.pid(),
    {
        self.pid
    }

    pub fn is_resolved(&self) -> (r: bool)
        ensures
            r == self.resolved(),
    {
        self.resolved
    }

    /// Finishes a wake whose status query for this waiter's child returned `q`.
    pub fn on_status(&mut self, q: Result<ExitStatus, OsError>) -> (p: ExitPoll)
        requires
            !old(self).resolved(),
        ensures
            p == exit_step(q),
            final(self).pid() == old(self).pid(),
            final(self).resolved() == is_final(q),
    {
        match q {
            Ok(ExitStatus::StillRunning) => ExitPoll::Pending,
            Ok(s) => {
                self.resolved = true;
                ExitPoll::Ready(s)
            },
            Err(e) => {
                self.resolved = true;
                ExitPoll::Failed(e)
            },
        }
    }

    /// One wake: asks, without blocking, for this child's status.
    pub fn poll_exit(&mut self) -> (p: ExitPoll)
        requires
            !old(self).resolved(),
        ensures
            final(self).pid() == old(self).pid(),
            final(self).resolved() == p.is_done(),
            p matches ExitPoll::Ready(s) ==> well_formed(s) && s != ExitStatus::StillRunning
                && s != ExitStatus::Continued,
    {
        let q = sys_waitpid(self.pid, WNOHANG);
        proof {
            assert(WNOHANG & WCONTINUED == 0) by (bit_vector);
        }
        self.on_status(q)
    }
}

/// The polls of a waiter whose successive queries return `qs`, up to the one
/// that resolves it.
pub open spec fn exit_polls(qs: Seq<Result<ExitStatus, OsError>>) -> Seq<ExitPoll>
    decreases qs.len(),
{
    if qs.len() == 0 {
        seq![]
    } else if is_final(qs[0]) {
        seq![exit_step(qs[0])]
    } else {
        seq![ExitPoll::Pending] + exit_polls(qs.drop_first())
    }
}

/// The waiter resolves exactly once, at the first query that does not report
/// the child running, and with exactly that query's result; every poll before
/// is pending. Without such a query it stays pending.
pub proof fn lemma_resolves_once(qs: Seq<Result<ExitStatus, OsError>>, i: int)
    requires
        0 <= i < qs.len(),
        is_final(qs[i]),
        forall|j: int| 0 <= j < i ==> !is_final(#[trigger] qs[j]),
    ensures
        exit_polls(qs).len() == i + 1,
        exit_polls(qs)[i] == exit_step(qs[i]) && exit_step(qs[i]).is_done(),
        forall|j: int| 0 <= j < i ==> #[trigger] exit_polls(qs)[j] == ExitPoll::Pending,
    decreases i,
{
    if i > 0 {
        let rest = qs.drop_first();
        assert forall|j: int| 0 <= j < i - 1 implies !is_final(#[trigger] rest[j]) by {
            assert(rest[j] == qs[j + 1]);
        }
        assert(!is_final(qs[0]));
        lemma_resolves_once(rest, i - 1);
        assert forall|j: int| 0 <= j < i implies #[trigger] exit_polls(qs)[j] == ExitPoll::Pending by {
            if j > 0 {
                assert(exit_polls(qs)[j] == exit_polls(rest)[j - 1]);
            }
        }
    }
}

/// Without a final query the waiter never resolves: every poll is pending.
pub proof fn lemma_pending_until_final(qs: Seq<Result<ExitStatus, OsError>>)
    requires
        forall|j: int| 0 <= j < qs.len() ==> !is_final(#[trigger] qs[j]),
    ensures
        exit_polls(qs).len() == qs.len(),
        forall|j: int| 0 <= j < qs.len() ==> #[trigger] exit_polls(qs)[j] == ExitPoll::Pending,
    decreases qs.len(),
{
    if qs.len() > 0 {
        let rest = qs.drop_first();
        assert forall|j: int| 0 <= j < rest.len() implies !is_final(#[trigger] rest[j]) by {
            assert(rest[j] == qs[j + 1]);
        }
        assert(!is_final(qs[0]));
        lemma_pending_until_final(rest);
        assert forall|j: int| 0 <= j < qs.len() implies #[trigger] exit_polls(qs)[j] == ExitPoll::Pending by {
            if j > 0 {
                assert(exit_polls(qs)[j] == exit_polls(rest)[j - 1]);
            }
        }
    }
}

/// A poll whose query for its own child returned a final status resolves,
/// with that status; two waiters whose queries returned different final
/// results resolve with different polls. Since each waiter asks for its own
/// child on every wake, this holds however the notifications coalesced.
pub proof fn lemma_coalesced_exits(qa: Result<ExitStatus, OsError>, qb: Result<ExitStatus, OsError>)
    requires
        is_final(qa),
        is_final(qb),
    ensures
        exit_step(qa).is_done(),
        exit_step(qb).is_done(),
        qa matches Ok(s) ==> exit_step(qa) == ExitPoll::Ready(s),
        qb matches Ok(s) ==> exit_step(qb) == ExitPoll::Ready(s),
        qa != qb ==> exit_step(qa) != exit_step(qb),
{
}

/// A child process, known by its process id.
#[derive(Debug, Clone, Copy)]
pub struct Child {
    pid: i32,
}

impl Child {
    pub closed spec fn pid(&self) -> i32 {
        self.pid
    }

    #[verifier::type_invariant]
    spec fn names_one_process(&self) -> bool {
        self.pid > 0
    }

    pub fn new(pid: i32) -> (c: Child)
        requires
            pid > 0,
        ensures
            c.pid() == pid,
    {
        Child { pid }
    }

    pub fn as_raw_pid(&self) -> (r: i32)
        ensures
            r == self.pid(),
    {
        self.pid
    }

    /// Waits for the child with the `waitpid` option bits `options`
    /// (`WNOHANG`, `WUNTRACED`, `WCONTINUED`).
    pub fn wait(&self, options: i32) -> (r: Result<ExitStatus, OsError>)
        ensures
            r matches Ok(s) ==> well_formed(s),
            r matches Ok(ExitStatus::StillRunning) ==> options & WNOHANG != 0,
    {
        sys_waitpid(self.pid, options)
    }

    /// Blocks until the child changes state.
    pub fn status(&self) -> (r: Result<ExitStatus, OsError>)
        ensures
            r matches Ok(s) ==> well_formed(s) && s != ExitStatus::StillRunning,
    {
        let r = sys_waitpid(self.pid, 0);
        proof {
            assert(0i32 & WNOHANG == 0) by (bit_vector);
        }
        r
    }

    /// A one-shot waiter for this child's termination.
    pub fn exit_waiter(&self) -> (w: ExitWaiter)
        ensures
            w.pid() == self.pid(),
            !w.resolved(),
    {
        proof {
            use_type_invariant(self);
        }
        ExitWaiter::new(self.pid)
    }
}

/// A child process whose termination is awaited without blocking.
#[derive(Debug, Clone, Copy)]
pub struct AsyncChild {
    pid: i32,
}

impl AsyncChild {
    pub closed spec fn pid(&self) -> i32 {
        self.pid
    }

    #[verifier::type_invariant]
    spec fn names_one_process(&self) -> bool {
        self.pid > 0
    }

    pub fn new(pid: i32) -> (c: AsyncChild)
        requires
            pid > 0,
        ensures
            c.pid() == pid,
    {
        AsyncChild { pid }
    }

    pub fn as_raw_pid(&self) -> (r: i32)
        ensures
            r == self.pid(),
    {
        self.pid
    }

    /// The one-shot waiter that resolves with this child's status: polled
    /// on each wake, it is what awaiting the child comes to.
    pub fn status(&self) -> (w: ExitWaiter)
        ensures
            w.pid() == self.pid(),
            !w.resolved(),
    {
        proof {
            use_type_invariant(self);
        }
        ExitWaiter::new(self.pid)
    }
}

} // verus!

//! Readiness bookkeeping for a descriptor registered with a reactor.
//!
//! Each direction caches whether the descriptor was last known ready and
//! whether a task waits to be woken. A poll tries the system call only when
//! the cache says ready (it starts out ready, so the first poll tries at
//! once); a would-block result clears the cache and suspends; only a
//! readiness event sets it again and wakes the waiting task.
use vstd::prelude::*;
use crate::error::OsError;

verus! {

/// One direction of a full-duplex descriptor.
#[derive(Debug, Clone, Copy, PartialEq, Eq, Structural)]
pub enum Direction {
    Read,
    Write,
}

/// What is known of one direction of a registered descriptor.
#[derive(Debug, Clone, Copy, PartialEq, Eq, Structural)]
pub struct Readiness {
    /// Interest in this direction has been registered with the reactor.
    pub interested: bool,
    /// The descriptor was last known ready in this direction.
    pub ready: bool,
    /// A suspended task waits to be woken by the next readiness event.
    pub waiting: bool,
}

/// What a poll does next.
#[derive(Debug, Clone, Copy, PartialEq, Eq, Structural)]
pub enum PollAction {
    /// Issue the non-blocking system call now.
    Attempt,
    /// Suspend until the reactor reports readiness.
    Suspend,
}

/// The tasks that a readiness event wakes.
#[derive(Debug, Clone, Copy, PartialEq, Eq, Structural)]
pub struct Wakeups {
    pub read: bool,
    pub write: bool,
}

/// The result of one poll of a read or a write.
#[derive(Debug, Clone, Copy, PartialEq, Eq, Structural)]
pub enum IoPoll {
    /// The system call moved this many bytes; for a read, 0 is end of stream.
    Ready(usize),
    /// Not ready: the task waits for a readiness event.
    Pending,
    /// The system call failed; the stream is finished.
    Failed(OsError),
}

/// What a system call in direction `d` that returned `result` makes of the
/// poll: a would-block error becomes a suspension, never an error; a read
/// that finds the other end of the terminal hung up is end of stream.
pub open spec fn io_outcome(d: Direction, result: Result<usize, OsError>) -> IoPoll {
    match result {
        Ok(n) => IoPoll::Ready(n),
        Err(e) => if e.is_would_block() {
            IoPoll::Pending
        } else if d == Direction::Read && e.is_hangup() {
            IoPoll::Ready(0)
        } else {
            IoPoll::Failed(e)
        },
    }
}

/// The registration of one descriptor with the reactor, shared by both
/// directions.
#[derive(Debug, Clone, Copy, PartialEq, Eq, Structural)]
pub struct Registration {
    pub read: Readiness,
    pub write: Readiness,
}

impl Registration {
    pub open spec fn half(self, d: Direction) -> Readiness {
        match d {
            Direction::Read => self.read,
            Direction::Write => self.write,
        }
    }

    pub open spec fn with_half(self, d: Direction, h: Readiness) -> Registration {
        match d {
            Direction::Read => Registration { read: h, ..self },
            Direction::Write => Registration { write: h, ..self },
        }
    }

    /// Nothing registered yet, both directions optimistically ready.
    pub open spec fn fresh() -> Registration {
        let h = Readiness { interested: false, ready: true, waiting: false };
        Registration { read: h, write: h }
    }

    /// A poll in direction `d`: register interest, then try the call if the
    /// cache says ready, else suspend.
    pub open spec fn begin_spec(self, d: Direction) -> (Registration, PollAction) {
        let h = self.half(d);
        if h.ready {
            (self.with_half(d, Readiness { interested: true, ..h }), PollAction::Attempt)
        } else {
            (
                self.with_half(d, Readiness { interested: true, ready: false, waiting: true }),
                PollAction::Suspend,
            )
        }
    }

    /// The call in direction `d` would have blocked: forget the readiness and wait.
    pub open spec fn would_block_spec(self, d: Direction) -> Registration {
        self.with_half(d, Readiness { interested: true, ready: false, waiting: true })
    }

    /// The reactor reports the descriptor readable and/or writable.
    pub open spec fn event_spec(self, readable: bool, writable: bool) -> (Registration, Wakeups) {
        let r = self.read;
        let w = self.write;
        (
            Registration {
                read: Readiness {
                    ready: r.ready || readable,
                    waiting: r.waiting && !readable,
                    ..r
                },
                write: Readiness {
                    ready: w.ready || writable,
                    waiting: w.waiting && !writable,
                    ..w
                },
            },
            Wakeups { read: r.waiting && readable, write: w.waiting && writable },
        )
    }

    /// The registration after `d` has been polled `k` times with no event
    /// in between.
    pub open spec fn polled(self, d: Direction, k: nat) -> Registration
        decreases k,
    {
        if k == 0 {
            self
        } else {
            self.begin_spec(d).0.polled(d, (k - 1) as nat)
        }
    }

    pub fn new() -> (r: Registration)
        ensures
            r == Registration::fresh(),
    {
        let h = Readiness { interested: false, ready: true, waiting: false };
        Registration { read: h, write: h }
    }

    pub fn begin(&mut self, d: Direction) -> (a: PollAction)
        ensures
            (*final(self), a) == old(self).begin_spec(d),
    {
        let h = match d {
            Direction::Read => self.read,
            Direction::Write => self.write,
        };
        let (h2, a) = if h.ready {
            (Readiness { interested: true, ..h }, PollAction::Attempt)
        } else {
            (Readiness { interested: true, ready: false, waiting: true }, PollAction::Suspend)
        };
        match d {
            Direction::Read => self.read = h2,
            Direction::Write => self.write = h2,
        }
        a
    }

    pub fn clear_ready(&mut self, d: Direction)
        ensures
            *final(self) == old(self).would_block_spec(d),
    {
        let h = Readiness { interested: true, ready: false, waiting: true };
        match d {
            Direction::Read => self.read = h,
            Direction::Write => self.write = h,
        }
    }

    /// Records a readiness event and says which waiting tasks to wake.
    pub fn on_event(&mut self, readable: bool, writable: bool) -> (w: Wakeups)
        ensures
            (*final(self), w) == old(self).event_spec(readable, writable),
    {
        let wake = Wakeups {
            read: self.read.waiting && readable,
            write: self.write.waiting && writable,
        };
        self.read.ready = self.read.ready || readable;
        self.read.waiting = self.read.waiting && !readable;
        self.write.ready = self.write.ready || writable;
        self.write.waiting = self.write.waiting && !writable;
        wake
    }

    /// Finishes a poll in direction `d` whose system call returned `result`.
    pub fn complete(&mut self, d: Direction, result: Result<usize, OsError>) -> (p: IoPoll)
        ensures
            p == io_outcome(d, result),
            *final(self) == if p is Pending {
                old(self).would_block_spec(d)
            } else {
                *old(self)
            },
    {
        match result {
            Ok(n) => IoPoll::Ready(n),
            Err(e) => if e.would_block() {
                self.clear_ready(d);
                IoPoll::Pending
            } else if d == Direction::Read && e.hangup() {
                IoPoll::Ready(0)
            } else {
                IoPoll::Failed(e)
            },
        }
    }
}

/// End of stream is a value, not an error: a read that returns no bytes, or
/// that finds the other end of the terminal hung up, finishes the poll with
/// `Ready(0)`; a write that finds it hung up fails.
pub proof fn lemma_hangup_is_end_of_stream(e: OsError)
    requires
        e.is_hangup(),
    ensures
        io_outcome(Direction::Read, Ok(0)) == IoPoll::Ready(0),
        io_outcome(Direction::Read, Err(e)) == IoPoll::Ready(0),
        io_outcome(Direction::Write, Err(e)) == IoPoll::Failed(e),
{
}

/// No busy polling: a direction that is not ready is never tried again and
/// wakes nobody however often it is polled, and the other direction is left
/// as it was; its task is woken by the first readiness event for it, and by
/// no event for the other direction alone.
pub proof fn lemma_no_busy_poll(r: Registration, d: Direction, k: nat)
    requires
        !r.half(d).ready,
    ensures
        forall|i: nat| i < k ==> (#[trigger] r.polled(d, i)).begin_spec(d).1 == PollAction::Suspend,
        k > 0 ==> r.polled(d, k).half(d) == (Readiness { interested: true, ready: false, waiting: true }),
        k > 0 ==> r.polled(d, k) == r.would_block_spec(d),
        r.would_block_spec(d).event_spec(false, false).1 == (Wakeups { read: false, write: false }),
        r.would_block_spec(d).event_spec(d == Direction::Read, d == Direction::Write).1
            == (Wakeups { read: d == Direction::Read, write: d == Direction::Write }),
        !r.would_block_spec(d).event_spec(d == Direction::Write, d == Direction::Read).0.half(d).ready,
    decreases k,
{
    if k > 0 {
        lemma_no_busy_poll(r, d, (k - 1) as nat);
        lemma_polled_step(r, d, (k - 1) as nat);
    }
    assert forall|i: nat| i < k implies (#[trigger] r.polled(d, i)).begin_spec(d).1 == PollAction::Suspend by {
        if i > 0 {
            lemma_polled_step(r, d, (i - 1) as nat);
        }
    }
}

proof fn lemma_polled_step(r: Registration, d: Direction, k: nat)
    requires
        !r.half(d).ready,
    ensures
        r.polled(d, k + 1) == r.would_block_spec(d),
    decreases k,
{
    let next = r.begin_spec(d).0;
    assert(next == r.would_block_spec(d));
    assert(next.would_block_spec(d) == r.would_block_spec(d));
    assert(r.polled(d, k + 1) == next.polled(d, k));
    if k > 0 {
        lemma_polled_step(next, d, (k - 1) as nat);
    }
}

} // verus!

//! A pseudo-terminal master driven without blocking: descriptor ownership,
//! readiness bookkeeping for suspend-capable reads and writes, bounded-wait
//! readers and writers, and a one-shot waiter for a child's termination.

mod async_io;
mod child;
mod error;
mod fd;
mod readiness;
mod resize;
mod sync_io;
mod sys;
mod traits;

pub use async_io::{AsyncPtyMaster, AsyncReader, AsyncWriter};
pub use child::{AsyncChild, Child, ExitPoll, ExitStatus, ExitWaiter};
pub use error::{IoError, OsError, EAGAIN, EBADF, EIO, O_NONBLOCK, WCONTINUED, WNOHANG, WUNTRACED};
pub use fd::{close_verdict, is_alive, nonblocking_flags, nonblocking_update, set_nonblocking, CloseError, PtyMaster};
pub use readiness::{Direction, IoPoll, PollAction, Readiness, Registration, Wakeups};
pub use resize::{resize_outcome, WindowSize};
pub use sync_io::{readiness_outcome, PtyReader, PtyWriter};
pub use traits::{Descriptor, IsAlive, SetNonblocking};

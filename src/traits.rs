//! Behaviour shared by everything that refers to a descriptor.
use vstd::prelude::*;
use crate::error::{OsError, O_NONBLOCK};
use crate::fd::{is_alive, set_nonblocking, with_nonblocking};

verus! {

/// A value that refers to one descriptor.
pub trait Descriptor {
    spec fn descriptor(&self) -> i32;

    fn as_raw_fd(&self) -> (r: i32)
        ensures
            r == self.descriptor();
}

/// Whether the descriptor is still open.
pub trait IsAlive: Descriptor {
    fn is_alive(&self) -> bool {
        is_alive(self.as_raw_fd())
    }
}

/// Switching the descriptor between blocking and non-blocking mode.
pub trait SetNonblocking: Descriptor {
    /// Returns the file-status flags written; see `crate::set_nonblocking`.
    fn set_nonblocking(&mut self, value: bool) -> (r: Result<i32, OsError>)
        ensures
            final(self).descriptor() == old(self).descriptor(),
            r matches Ok(f) ==> (f & O_NONBLOCK != 0) == value && with_nonblocking(f, value) == f,
    {
        set_nonblocking(self.as_raw_fd(), value)
    }
}

} // verus!

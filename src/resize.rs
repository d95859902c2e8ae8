//! Terminal window sizes, and how a resize request's result is read.
use vstd::prelude::*;
use crate::error::OsError;

verus! {

/// A terminal's size in character cells and in pixels.
#[derive(Debug, Clone, Copy, PartialEq, Eq, Structural)]
pub struct WindowSize {
    pub rows: u16,
    pub cols: u16,
    pub x_pixels: u16,
    pub y_pixels: u16,
}

impl WindowSize {
    pub fn new(rows: u16, cols: u16, x_pixels: u16, y_pixels: u16) -> (w: WindowSize)
        ensures
            w == (WindowSize { rows, cols, x_pixels, y_pixels }),
    {
        WindowSize { rows, cols, x_pixels, y_pixels }
    }
}

/// What a resize request that returned `ret`, with `errno` set to `errno`,
/// amounts to: -1 is a failure, typed by `errno`; anything else succeeded.
pub open spec fn resize_result(ret: i32, errno: i32) -> Result<(), OsError> {
    if ret == -1 {
        Err(OsError::Errno(errno))
    } else {
        Ok(())
    }
}

/// Reads the return value of the window-size `ioctl`: a failure, on a closed
/// or invalid descriptor among others, is always reported with its `errno`.
pub fn resize_outcome(ret: i32, errno: i32) -> (r: Result<(), OsError>)
    ensures
        r == resize_result(ret, errno),
{
    if ret == -1 {
        Err(OsError::Errno(errno))
    } else {
        Ok(())
    }
}

} // verus!

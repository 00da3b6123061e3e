//! Identifiers of the window messages the host reacts to, and what the
//! message calls' raw results mean.

use vstd::prelude::*;
use crate::helpers::last_error;

verus! {

/// Sent once when a window is being created.
pub const WM_CREATE: u32 = 0x0001;

/// Sent when a window is being destroyed.
pub const WM_DESTROY: u32 = 0x0002;

/// Sent after a window's size has changed.
pub const WM_SIZE: u32 = 0x0005;

/// Sent when a part of a window must be painted.
pub const WM_PAINT: u32 = 0x000F;

/// Ends the message loop; it carries the exit code.
pub const WM_QUIT: u32 = 0x0012;

/// Sent when the display resolution has changed.
pub const WM_DISPLAYCHANGE: u32 = 0x007E;

/// Sent when the pointer moves over the client area.
pub const WM_MOUSEMOVE: u32 = 0x0200;

/// The outcome of retrieving a message, from the raw result of the retrieving
/// call: -1 says that the call failed, and the outcome then carries the
/// operating system's error; with any other result `msg` was retrieved.
pub fn retrieved<M>(result: i32, msg: M) -> (outcome: Result<M, std::io::Error>)
    ensures
        result == -1 ==> outcome is Err,
        result != -1 ==> outcome == Ok::<M, std::io::Error>(msg),
{
    if result == -1 {
        last_error()
    } else {
        Ok(msg)
    }
}

/// Whether a message was translated, from the raw result of the translating
/// call: anything but zero says that it was.
pub fn translated(result: i32) -> (yes: bool)
    ensures
        yes == (result != 0),
{
    result != 0
}

} // verus!

//! Helpers shared by the window host: the message loop's decision and the
//! checks on what the windowing calls hand back.

use vstd::prelude::*;
use crate::helpers::msg::WM_QUIT;

pub mod event;
pub mod msg;
pub mod strings;

verus! {

/// `std::io::Error`, carried through as an opaque value: nothing is known of
/// what one holds.
#[verifier::external_type_specification]
#[verifier::external_body]
pub struct ExIoError(std::io::Error);

/// `std::io::Error::last_os_error`: the error that the operating system
/// recorded last for the calling thread. Nothing is claimed of its value.
pub assume_specification[ std::io::Error::last_os_error ]() -> (error: std::io::Error)
;

/// The failure that the operating system reported last, as the error of a
/// result of any type.
pub fn last_error<T>() -> (result: Result<T, std::io::Error>)
    ensures
        result is Err,
{
    Err(std::io::Error::last_os_error())
}

/// Checks a handle or pointer that a windowing call returned, by its address:
/// a null one means that the call failed, and the result then carries the
/// operating system's error.
pub fn try_verify(arg: usize) -> (result: Result<(), std::io::Error>)
    ensures
        result is Ok <==> arg != 0,
{
    if arg == 0 {
        last_error()
    } else {
        Ok(())
    }
}

/// States that a handle or pointer that a windowing call returned is not
/// null. A caller that cannot show this uses `try_verify`.
pub fn verify(arg: usize)
    requires
        arg != 0,
{
    let checked = try_verify(arg);
    checked.unwrap()
}

/// Checks the truth value that a windowing call returned: anything but 1
/// means that the call failed, and the result then carries the operating
/// system's error.
pub fn try_verify_bool(arg: i32) -> (result: Result<(), std::io::Error>)
    ensures
        result is Ok <==> arg == 1,
{
    if arg == 1 {
        Ok(())
    } else {
        last_error()
    }
}

/// States that the truth value that a windowing call returned is 1. A caller
/// that cannot show this uses `try_verify_bool`.
pub fn verify_bool(arg: i32)
    requires
        arg == 1,
{
    let checked = try_verify_bool(arg);
    checked.unwrap()
}

/// What the message loop does with a message it has retrieved.
#[derive(Clone, Copy, Debug, PartialEq, Eq, Structural)]
pub enum Step {
    /// Leave the loop with this exit code.
    Quit(i32),
    /// Translate the message and dispatch it to its window.
    Dispatch,
}

/// The exit code that a quit message carries in its first parameter: the
/// parameter's 32 low-order bits, read as a signed number.
pub open spec fn exit_code(w_param: int) -> int {
    let bits = w_param % 0x1_0000_0000;
    if bits < 0x8000_0000 {
        bits
    } else {
        bits - 0x1_0000_0000
    }
}

/// One turn of the message loop: a quit message ends it with the code it
/// carries, every other message is translated and dispatched.
pub fn loop_step(message: u32, w_param: usize) -> (step: Step)
    ensures
        message == WM_QUIT ==> step == Step::Quit(exit_code(w_param as int) as i32),
        message != WM_QUIT ==> step == Step::Dispatch,
{
    if message == WM_QUIT {
        let code: i32 = #[verifier::truncate] (w_param as i32);
        assert(code as int == exit_code(w_param as int)) by (bit_vector)
            requires
                code == w_param as i32,
        ;
        Step::Quit(code)
    } else {
        Step::Dispatch
    }
}

} // verus!

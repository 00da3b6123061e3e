use d2d_host::helpers::msg::{retrieved, translated, WM_PAINT, WM_QUIT};
use d2d_host::helpers::{
    last_error, loop_step, try_verify, try_verify_bool, verify, verify_bool, Step,
};

#[test]
fn last_error_is_an_error() {
    assert!(last_error::<()>().is_err());
    assert!(last_error::<u32>().is_err());
}

#[test]
fn a_null_handle_fails_the_check() {
    assert!(try_verify(0).is_err());
    assert!(try_verify(1).is_ok());
    assert!(try_verify(usize::MAX).is_ok());
}

#[test]
fn verify_accepts_a_handle() {
    verify(0x1000);
}

#[test]
fn only_one_is_true() {
    assert!(try_verify_bool(1).is_ok());
    assert!(try_verify_bool(0).is_err());
    assert!(try_verify_bool(2).is_err());
    assert!(try_verify_bool(-1).is_err());
}

#[test]
fn verify_bool_accepts_one() {
    verify_bool(1);
}

#[test]
fn quit_ends_the_loop_with_its_code() {
    assert_eq!(loop_step(WM_QUIT, 0), Step::Quit(0));
    assert_eq!(loop_step(WM_QUIT, 3), Step::Quit(3));
    assert_eq!(loop_step(WM_QUIT, 0x7FFF_FFFF), Step::Quit(i32::MAX));
}

#[test]
fn the_exit_code_is_the_low_bits_signed() {
    assert_eq!(loop_step(WM_QUIT, 0xFFFF_FFFF), Step::Quit(-1));
    assert_eq!(loop_step(WM_QUIT, 0x8000_0000), Step::Quit(i32::MIN));
    assert_eq!(loop_step(WM_QUIT, usize::MAX), Step::Quit(-1));
}

#[test]
fn other_messages_are_dispatched() {
    assert_eq!(loop_step(WM_PAINT, 5), Step::Dispatch);
    assert_eq!(loop_step(0, 0), Step::Dispatch);
    assert_eq!(loop_step(0x0013, 9), Step::Dispatch);
}

#[test]
fn minus_one_is_a_failed_retrieval() {
    assert!(retrieved(-1, 5u8).is_err());
    assert_eq!(retrieved(0, 5u8).unwrap(), 5);
    assert_eq!(retrieved(1, 6u8).unwrap(), 6);
    assert_eq!(retrieved(-2, 7u8).unwrap(), 7);
}

#[test]
fn nonzero_is_translated() {
    assert!(!translated(0));
    assert!(translated(1));
    assert!(translated(-1));
}

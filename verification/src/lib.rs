//! The decision core of a small native-window host for 2D drawing demos:
//! message decoding, the window's paint/resize/device-loss state machine,
//! and the wide-string helpers the windowing calls need.

pub mod gui;
pub mod helpers;

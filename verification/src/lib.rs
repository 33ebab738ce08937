//! A terminal Pomodoro-style countdown timer library.
//!
//! The library holds the verified core of the timer: the glyph atlas that
//! turns a clock string into large ASCII-art rows, the work/break interval
//! state, the command interpreter that maps queued input events to control
//! commands, the clock/layout computations of the render pipeline, and the
//! session state machine that drives the countdown across intervals.
//!
//! Terminal I/O (raw mode, drawing, event polling) lives outside the library;
//! callers hand in plain values (surface heights, key events) and receive
//! plain values (text rows, layout plans, commands) back.

pub mod commands;
pub mod font;
pub mod interval;
pub mod render;
pub mod session;

//! Core of an interactive terminal to-do list: a selectable list with a
//! wrap-around cursor, an input-mode state machine that interprets key
//! events, a render planner that lays out a header, a list body and a
//! footer menu, and the timing arithmetic of the event loop's input poll.
//!
//! Terminal I/O itself (raw mode, the alternate screen, drawing, polling)
//! is left to the surrounding application; everything here is pure state
//! and computation, specified and verified.

pub mod app;
pub mod list;
pub mod render;
pub mod tick;

//! Control core of a three-button handheld: tick arithmetic, button debouncing,
//! the wrapping counter, and the decisions of a byte-echo service.
//!
//! Every function here is a pure decision over plain values. Reading the tick
//! counter, the input pins and the sockets is left to the caller, which feeds
//! what it read into these functions and carries out what they answer.

pub mod ticks;
pub mod counter;
pub mod buttons;
pub mod control;
pub mod report;
pub mod echo;
pub mod display;
pub mod access_point;

//! The logic of a small desktop overlay that shows a clock and a stock quote.
//!
//! The overlay's host owns the window, the timer and the network. This crate
//! decides what the labels show: how a tick of the one-second timer changes
//! the application state, when a quote is due, and what becomes of the data
//! source's answer.

pub mod clock;
pub mod drag;
pub mod event;
pub mod picture;
pub mod refresh;
pub mod round;
pub mod state;
pub mod stock;

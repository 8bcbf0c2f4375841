//! Translation of a serial stream of input events into USB HID reports.
//!
//! Bytes from the serial link are collected into frames, each frame is decoded
//! into an input event, the events update the set of pressed keys and the
//! pending pointer motion, and every synchronization marker freezes that state
//! into one keyboard report and one mouse report.

pub mod engine;
pub mod event;
pub mod frame;
pub mod keys;
pub mod keyset;
pub mod relay;
pub mod report;
pub mod state;

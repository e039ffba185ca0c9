//! The engine of a time-driven desktop background: a wall-clock time slot,
//! a sliding window of frames loaded ahead of it, and the compositor that
//! writes the current frame, tinted or not, into a pixel buffer.
//!
//! The engine performs no input or output. A driver reads files and the
//! control channel, hands their contents in, and carries out the steps the
//! engine asks for.

pub mod clock;
pub mod cache;
pub mod path;
pub mod tint;
pub mod compositor;
pub mod frame;
pub mod render;
pub mod command;
pub mod control;

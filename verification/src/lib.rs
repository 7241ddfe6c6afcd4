//! Core logic of a one-sensor, one-display environmental monitor.
//!
//! A periodic sampler formats readings from an environmental sensor onto an
//! eight-cell segmented display, while a debounced button cycles which
//! quantity (temperature, humidity, pressure) is shown. This crate holds the
//! device-independent core: the mode state machine, the single-slot mode
//! signal that carries button presses to the render loop, the debounce
//! policy, and the fixed-width formatting rules. The hardware itself (the
//! sensor bus, the display driver, the input pin and the task executor) is a
//! collaborator that a thin runtime layer drives around this crate.

pub mod debounce;
pub mod measurement;
pub mod mode;
pub mod mode_signal;
pub mod render;

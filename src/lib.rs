//! Sensing and display logic of a pH / temperature monitor: a one-wire
//! temperature sensor protocol, a non-blocking sensor scheduler, a
//! multiplexed four-digit seven-segment display and its mode controller.
//!
//! Hardware access (pins, registers, delays) is performed by the caller:
//! the functions here decide what to put on the wires and interpret what
//! comes back.
pub mod adc;
pub mod air;
pub mod bits;
pub mod display;
pub mod display_controller;
pub mod ph;
pub mod registers;
pub mod sensor_manager;
pub mod temperature;
pub mod uart;

//! An emulator for an 8080-class 8-bit processor.
//!
//! [`cpu`] holds the processor: its state, the instruction decoder, the
//! execution engine and the interrupt mechanism, each stated over a
//! mathematical model of the register file and memory. [`machines`] holds
//! the device traits that a host implements and the arcade machine that
//! drives the processor frame by frame.

pub mod cpu;
pub mod machines;

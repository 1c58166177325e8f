//! Interrupt controller and trap dispatch core for a RISC-V microcontroller.
//!
//! The crate models the controller's memory-mapped register block as explicit
//! state, reserves CPU interrupt lines 1..=15 as one bucket per priority
//! level, demultiplexes a firing line to the peripheral handlers of the
//! sources routed to it, and translates trap frames to and from the layout
//! that the software atomic-emulation routine expects.

pub mod bits;
pub mod frame;
pub mod handlers;
pub mod registers;
pub mod trap;
pub mod types;
pub mod vectored;

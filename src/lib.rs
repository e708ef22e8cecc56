//! Interrupt routing for the nRF52 chip: deciding, on every return from a trap,
//! which deferred calls and hardware vectors are serviced, in what order, and by
//! which peripheral handler.

pub mod peripheral;
pub mod peripheral_interrupts;
pub mod router;
pub mod chip;
pub mod run;

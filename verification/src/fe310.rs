//! The on-chip peripherals of the FE310, one module per register block.

pub mod fifo;
pub mod gpio;
pub mod interrupt;
pub mod plic;
pub mod rtc;
pub mod tx_engine;
pub mod uart;

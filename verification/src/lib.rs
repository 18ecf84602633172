//! Board support for the FE310 microcontroller of the HiFive1 Rev B: the
//! interrupt path (trap dispatch, PLIC claim and complete, watermark-driven UART
//! transmission) and the peripheral drivers around it, written against register
//! files held as plain values.

pub mod bits;
pub mod boot;
pub mod dio;
pub mod error;
pub mod fe310;
pub mod gpio;
pub mod pmp;
pub mod rtc;
pub mod serial;
pub mod uart;

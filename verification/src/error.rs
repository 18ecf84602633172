//! Configuration errors.

use vstd::prelude::*;

verus! {

/// A setup call that the hardware cannot honour. Each of these marks a defect
/// in the build or its configuration, never a condition that arises while the
/// board runs: firmware treats any of them as fatal and halts.
#[derive(Clone, Copy, Debug, PartialEq, Eq, Structural)]
pub enum ConfigError {
    /// The UART instance number is neither 0 nor 1.
    InvalidInstance,
    /// The priority or threshold level is above 7.
    InvalidPriority,
    /// The stop-bit count is neither 1 nor 2.
    InvalidStopBits,
    /// The value names no interrupt source of the controller.
    InvalidSource,
    /// The FIFO watermark does not fit its three-bit field.
    InvalidFifoDepth,
    /// No divisor exists for the requested baud rate.
    InvalidBaud,
    /// The pin function selector is neither 0 nor 1.
    InvalidIoFunction,
    /// The real-time counter's prescaler does not fit its four-bit field.
    InvalidScale,
    /// An interrupt enable was requested before the trap vector and the stack
    /// were in place.
    TrapVectorNotInstalled,
}

} // verus!

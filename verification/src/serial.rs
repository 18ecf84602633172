//! Serial devices: a UART named by its instance number and set up from a
//! configuration record.

use crate::error::ConfigError;
use crate::fe310::uart::{
    baud_divisor, spec_baud_divisor, uart_disable_tx, uart_do_send_byte, uart_enable_tx,
    uart_enable_tx_wmark_interrupt, uart_set_baud_divisor, uart_set_stopbits,
    uart_set_tx_fifo_depth, UartRegisterFile, UartState, TXWM_BIT, UART_INPUT_CLOCK_HZ,
    UART_INSTANCE_COUNT,
};
use vstd::prelude::*;

verus! {

/// A baud rate in bits per second.
pub type UartBaud = u32;

/// The number of a UART, 0 or 1.
pub type UartInstance = u8;

/// The kinds of serial device.
#[derive(Clone, Copy, Debug, PartialEq, Eq, Structural)]
pub enum SerialDeviceType {
    Uart,
    Spi,
    I2c,
}

/// A count of start or stop bits.
#[derive(Clone, Copy, Debug, PartialEq, Eq, Structural)]
pub enum UartBitCount {
    One,
    Two,
}

/// Where the transmit watermark sits.
#[derive(Clone, Copy, Debug, PartialEq, Eq, Structural)]
pub enum UartFifoDepth {
    /// The interrupt fires once the FIFO is empty.
    Min,
    /// The interrupt fires as soon as the FIFO holds fewer than seven bytes.
    Max,
}

impl UartBitCount {
    /// The count as a number.
    pub open spec fn spec_count(self) -> u8 {
        match self {
            UartBitCount::One => 1,
            UartBitCount::Two => 2,
        }
    }

    /// The count as a number.
    #[verifier::when_used_as_spec(spec_count)]
    pub fn count(self) -> (n: u8)
        ensures
            n == self.spec_count(),
    {
        match self {
            UartBitCount::One => 1,
            UartBitCount::Two => 2,
        }
    }
}

impl UartFifoDepth {
    /// The watermark level: 1 for `Min`, 7 for `Max`.
    pub open spec fn spec_level(self) -> u8 {
        match self {
            UartFifoDepth::Min => 1,
            UartFifoDepth::Max => 7,
        }
    }

    /// The watermark level.
    #[verifier::when_used_as_spec(spec_level)]
    pub fn level(self) -> (level: u8)
        ensures
            level == self.spec_level(),
    {
        match self {
            UartFifoDepth::Min => 1,
            UartFifoDepth::Max => 7,
        }
    }
}

/// How a UART is to be set up.
#[derive(Clone, Copy, Debug, PartialEq, Eq, Structural)]
pub struct UartConfig {
    /// The baud rate.
    pub baud: UartBaud,
    /// The start bits. The hardware always sends one; the field is kept for
    /// the record.
    pub start_bits: UartBitCount,
    /// The stop bits.
    pub stop_bits: UartBitCount,
    /// The transmit watermark.
    pub fifo: UartFifoDepth,
}

impl UartConfig {
    /// Whether the hardware can run at the configured rate.
    pub open spec fn valid(self) -> bool {
        self.baud > 0
    }

    /// The state of a UART after this configuration is applied to it: the
    /// divisor for the rate, the stop bits and the transmit watermark are
    /// programmed, in this order.
    pub open spec fn applied(self, before: UartState) -> UartState {
        before.after_set_divisor(
            spec_baud_divisor(UART_INPUT_CLOCK_HZ, self.baud) as u32,
        ).after_set_stopbits(self.stop_bits.spec_count()).after_set_tx_watermark(
            self.fifo.spec_level(),
        )
    }
}

/// A UART and its configuration.
#[derive(Clone, Copy, Debug, PartialEq, Eq, Structural)]
pub struct Uart {
    /// The number of the UART, 0 or 1.
    pub instance: UartInstance,
    /// How it is to be set up.
    pub config: UartConfig,
}

/// Devices that are set up from a configuration of their own.
pub trait Configure {
    /// Programs the device as its configuration says.
    fn configure(&self, uarts: &mut UartRegisterFile) -> Result<(), ConfigError>;
}

/// Devices whose transmitter can be switched on.
pub trait EnableTx {
    /// Switches the transmitter on.
    fn enable_tx(&self, uarts: &mut UartRegisterFile) -> Result<(), ConfigError>;
}

/// Devices whose transmitter can be switched off.
pub trait DisableTx {
    /// Switches the transmitter off.
    fn disable_tx(&self, uarts: &mut UartRegisterFile) -> Result<(), ConfigError>;
}

/// Devices that send bytes.
pub trait DoSendByte {
    /// Makes one attempt to send `b`; tells whether the byte was taken.
    fn do_send_byte(&self, uarts: &mut UartRegisterFile, b: u8) -> Result<bool, ConfigError>;
}

impl Configure for Uart {
    /// Programs divisor, stop bits and transmit watermark as the
    /// configuration says. An instance number that names no UART is rejected
    /// first, then a baud rate of 0; either way nothing changes.
    fn configure(&self, uarts: &mut UartRegisterFile) -> (done: Result<(), ConfigError>)
        ensures
            self.instance < UART_INSTANCE_COUNT && self.config.valid() ==> old(uarts).configured(
                *final(uarts),
                self.instance,
                self.config.applied(old(uarts).state_of(self.instance)),
                done,
            ),
            self.instance >= UART_INSTANCE_COUNT ==> done == Err::<(), ConfigError>(
                ConfigError::InvalidInstance,
            ) && old(uarts).unchanged(*final(uarts)),
            self.instance < UART_INSTANCE_COUNT && !self.config.valid() ==> done == Err::<
                (),
                ConfigError,
            >(ConfigError::InvalidBaud) && old(uarts).unchanged(*final(uarts)),
    {
        if self.instance >= UART_INSTANCE_COUNT {
            return Err(ConfigError::InvalidInstance);
        }
        let div = match baud_divisor(UART_INPUT_CLOCK_HZ, self.config.baud) {
            Ok(d) => d,
            Err(e) => {
                return Err(e);
            },
        };
        let _ = uart_set_baud_divisor(uarts, self.instance, div);
        let _ = uart_set_stopbits(uarts, self.instance, self.config.stop_bits.count());
        uart_set_tx_fifo_depth(uarts, self.instance, self.config.fifo.level())
    }
}

impl DoSendByte for Uart {
    /// Makes one attempt to send `b`. The byte is taken unless the transmit
    /// FIFO is full; the caller polls until it is.
    fn do_send_byte(&self, uarts: &mut UartRegisterFile, b: u8) -> (queued: Result<
        bool,
        ConfigError,
    >)
        ensures
            self.instance < UART_INSTANCE_COUNT ==> queued == Ok::<bool, ConfigError>(
                !old(uarts).state_of(self.instance).tx_full(),
            ),
            self.instance >= UART_INSTANCE_COUNT ==> queued == Err::<bool, ConfigError>(
                ConfigError::InvalidInstance,
            ),
            old(uarts).configured(
                *final(uarts),
                self.instance,
                old(uarts).state_of(self.instance).after_send_byte(b),
                match queued {
                    Ok(_) => Ok(()),
                    Err(e) => Err(e),
                },
            ),
    {
        uart_do_send_byte(uarts, self.instance, b)
    }
}

impl EnableTx for Uart {
    /// Switches the transmit channel on.
    fn enable_tx(&self, uarts: &mut UartRegisterFile) -> (done: Result<(), ConfigError>)
        ensures
            old(uarts).configured(
                *final(uarts),
                self.instance,
                old(uarts).state_of(self.instance).after_set_tx_enable(true),
                done,
            ),
    {
        uart_enable_tx(uarts, self.instance)
    }
}

impl DisableTx for Uart {
    /// Switches the transmit channel off.
    fn disable_tx(&self, uarts: &mut UartRegisterFile) -> (done: Result<(), ConfigError>)
        ensures
            old(uarts).configured(
                *final(uarts),
                self.instance,
                old(uarts).state_of(self.instance).after_set_tx_enable(false),
                done,
            ),
    {
        uart_disable_tx(uarts, self.instance)
    }
}

impl Uart {
    /// Enables the transmit watermark interrupt.
    pub fn enable_tx_wmark_interrupt(&self, uarts: &mut UartRegisterFile) -> (done: Result<
        (),
        ConfigError,
    >)
        ensures
            old(uarts).configured(
                *final(uarts),
                self.instance,
                old(uarts).state_of(self.instance).after_enable_interrupt(TXWM_BIT),
                done,
            ),
    {
        uart_enable_tx_wmark_interrupt(uarts, self.instance)
    }

    /// Whether the transmitter cannot take a byte now: its FIFO is full.
    pub fn poll_tx_busy(&self, uarts: &UartRegisterFile) -> (busy: Result<bool, ConfigError>)
        ensures
            self.instance < UART_INSTANCE_COUNT ==> busy == Ok::<bool, ConfigError>(
                uarts.state_of(self.instance).tx_full(),
            ),
            self.instance >= UART_INSTANCE_COUNT ==> busy == Err::<bool, ConfigError>(
                ConfigError::InvalidInstance,
            ),
    {
        match self.instance {
            0 => Ok(uarts.uart0.txdata() != 0),
            1 => Ok(uarts.uart1.txdata() != 0),
            _ => Err(ConfigError::InvalidInstance),
        }
    }
}

} // verus!

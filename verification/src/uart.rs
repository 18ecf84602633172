//! A UART driven by polling: one object per instance, which owns the register
//! block of its instance.

use crate::error::ConfigError;
use crate::fe310::uart::{
    baud_divisor, watermark_of, UartMmapRegs, UartState, DATA_SEG_BMASK, MAX_WATERMARK,
    UART_INPUT_CLOCK_HZ,
};
use vstd::prelude::*;

verus! {

/// The address at which the registers of UART 0 are mapped.
pub const UART0_BASE_ADDR: u32 = 0x1001_3000;

/// The address at which the registers of UART 1 are mapped.
pub const UART1_BASE_ADDR: u32 = 0x1002_3000;

/// The two UARTs of the chip.
#[derive(Clone, Copy, Debug, PartialEq, Eq, Structural)]
pub enum UartInstance {
    Ins0,
    Ins1,
}

/// The number of stop bits.
#[derive(Clone, Copy, Debug, PartialEq, Eq, Structural)]
pub enum UartStopBits {
    One,
    Two,
}

/// The baud rates on offer. The divisors are for the bus clock of 16 MHz.
#[derive(Clone, Copy, Debug, PartialEq, Eq, Structural)]
pub enum UartBaudRate {
    BR115200,
    BR31250,
}

impl UartBaudRate {
    /// The rate in bits per second.
    pub open spec fn spec_rate(self) -> u32 {
        match self {
            UartBaudRate::BR115200 => 115200,
            UartBaudRate::BR31250 => 31250,
        }
    }

    /// The divisor for the rate: 138 for 115200 baud, 511 for 31250 baud.
    pub open spec fn spec_divisor(self) -> u32 {
        match self {
            UartBaudRate::BR115200 => 138,
            UartBaudRate::BR31250 => 511,
        }
    }

    /// The rate in bits per second.
    #[verifier::when_used_as_spec(spec_rate)]
    pub fn rate(self) -> (rate: u32)
        ensures
            rate == self.spec_rate(),
    {
        match self {
            UartBaudRate::BR115200 => 115200,
            UartBaudRate::BR31250 => 31250,
        }
    }
}

/// One UART, mapped at a fixed address, together with its registers.
pub struct Uart {
    regs: UartMmapRegs,
    base: u32,
}

impl View for Uart {
    type V = UartState;

    closed spec fn view(&self) -> UartState {
        self.regs@
    }
}

impl Uart {
    /// The address at which the registers of this UART are mapped.
    pub closed spec fn spec_base_addr(&self) -> u32 {
        self.base
    }

    /// The UART `instance` as reset leaves it.
    pub fn init(instance: UartInstance) -> (uart: Uart)
        ensures
            uart@ == UartState::reset(),
            uart.spec_base_addr() == (match instance {
                UartInstance::Ins0 => UART0_BASE_ADDR,
                UartInstance::Ins1 => UART1_BASE_ADDR,
            }),
    {
        match instance {
            UartInstance::Ins0 => Uart { regs: UartMmapRegs::new(), base: UART0_BASE_ADDR },
            UartInstance::Ins1 => Uart { regs: UartMmapRegs::new(), base: UART1_BASE_ADDR },
        }
    }

    /// The address at which the registers of this UART are mapped.
    #[verifier::when_used_as_spec(spec_base_addr)]
    pub fn base_addr(&self) -> (addr: u32)
        ensures
            addr == self.spec_base_addr(),
    {
        self.base
    }

    /// The registers of this UART.
    pub fn regs(&self) -> (regs: &UartMmapRegs)
        ensures
            regs@ == self@,
    {
        &self.regs
    }

    /// Programs the divisor for baud rate `br`.
    pub fn set_baud(&mut self, br: UartBaudRate)
        ensures
            final(self)@ == old(self)@.after_set_divisor(br.spec_divisor()),
            final(self).spec_base_addr() == old(self).spec_base_addr(),
    {
        let div = match baud_divisor(UART_INPUT_CLOCK_HZ, br.rate()) {
            Ok(d) => d,
            Err(_) => 0,
        };
        self.regs.set_baud_divisor(div);
    }

    /// Programs the number of stop bits.
    pub fn set_stopbits(&mut self, s: UartStopBits)
        ensures
            final(self)@ == old(self)@.after_set_stopbits(
                if s == UartStopBits::Two {
                    2u8
                } else {
                    1u8
                },
            ),
            final(self)@.stop_bits() == (if s == UartStopBits::Two {
                2int
            } else {
                1int
            }),
            final(self).spec_base_addr() == old(self).spec_base_addr(),
    {
        let _ = match s {
            UartStopBits::One => self.regs.set_stopbits(1),
            UartStopBits::Two => self.regs.set_stopbits(2),
        };
    }

    /// Programs the transmit watermark. Rejects a level above 7 and then
    /// changes nothing.
    pub fn set_txfifosize(&mut self, l: u32) -> (done: Result<(), ConfigError>)
        ensures
            l <= MAX_WATERMARK ==> done is Ok && final(self)@ == old(self)@.after_set_tx_watermark(
                l as u8,
            ) && watermark_of(final(self)@.txctrl) == l,
            l > MAX_WATERMARK ==> done == Err::<(), ConfigError>(ConfigError::InvalidFifoDepth)
                && final(self)@ == old(self)@,
            final(self).spec_base_addr() == old(self).spec_base_addr(),
    {
        if l > 7 {
            return Err(ConfigError::InvalidFifoDepth);
        }
        self.regs.set_tx_fifo_depth(l as u8)
    }

    /// Programs the receive watermark. Rejects a level above 7 and then
    /// changes nothing.
    pub fn set_rxfifosize(&mut self, l: u32) -> (done: Result<(), ConfigError>)
        ensures
            l <= MAX_WATERMARK ==> done is Ok && final(self)@ == old(self)@.after_set_rx_watermark(
                l as u8,
            ) && watermark_of(final(self)@.rxctrl) == l,
            l > MAX_WATERMARK ==> done == Err::<(), ConfigError>(ConfigError::InvalidFifoDepth)
                && final(self)@ == old(self)@,
            final(self).spec_base_addr() == old(self).spec_base_addr(),
    {
        if l > 7 {
            return Err(ConfigError::InvalidFifoDepth);
        }
        self.regs.set_rx_fifo_depth(l as u8)
    }

    /// Switches the transmit channel on.
    pub fn enable_tx_channel(&mut self)
        ensures
            final(self)@ == old(self)@.after_set_tx_enable(true),
            final(self)@.tx_enabled(),
            final(self).spec_base_addr() == old(self).spec_base_addr(),
    {
        self.regs.enable_tx();
    }

    /// Switches the receive channel on.
    pub fn enable_rx_channel(&mut self)
        ensures
            final(self)@ == old(self)@.after_enable_rx(),
            final(self)@.rx_enabled(),
            final(self).spec_base_addr() == old(self).spec_base_addr(),
    {
        self.regs.enable_rx();
    }

    /// Writes `data` to the transmit register without looking at the full
    /// flag: the low byte is queued if the FIFO has room and is lost if it
    /// has none.
    pub fn transmit(&mut self, data: u32)
        ensures
            final(self)@ == old(self)@.after_txdata_write(data),
            final(self).spec_base_addr() == old(self).spec_base_addr(),
    {
        self.regs.write_txdata(data);
    }

    /// Whether the transmit FIFO has no room.
    pub fn txfifo_full(&self) -> (full: bool)
        ensures
            full == self@.tx_full(),
    {
        let fs = self.regs.txdata() >> 31;
        assert(0u32 >> 31 == 0 && 0x8000_0000u32 >> 31 == 1) by (bit_vector);
        fs > 0
    }

    /// Whether the receive FIFO holds nothing. The flag sits in the receive
    /// register, and reading that register takes a byte off the FIFO: when
    /// the answer is "not empty", the oldest byte received is gone.
    pub fn rxfifo_empty(&mut self) -> (empty: bool)
        ensures
            empty == old(self)@.rx_empty(),
            final(self)@ == old(self)@.after_rxdata_read(),
            final(self).spec_base_addr() == old(self).spec_base_addr(),
    {
        let word = self.regs.read_rxdata();
        let fs = word >> 31;
        assert(0x8000_0000u32 >> 31 == 1) by (bit_vector);
        assert(word < 256 ==> word >> 31 == 0) by (bit_vector);
        fs > 0
    }

    /// Reads the receive register and returns its data byte: the oldest byte
    /// received, which leaves the FIFO, or 0 when the FIFO is empty.
    pub fn receive(&mut self) -> (data: u32)
        ensures
            data == (if old(self)@.rx_empty() {
                0u32
            } else {
                old(self)@.rx_fifo[0] as u32
            }),
            final(self)@ == old(self)@.after_rxdata_read(),
            final(self).spec_base_addr() == old(self).spec_base_addr(),
    {
        let word = self.regs.read_rxdata();
        assert(0x8000_0000u32 & 0xFF == 0) by (bit_vector);
        assert(word < 256 ==> word & 0xFF == word) by (bit_vector);
        word & DATA_SEG_BMASK
    }
}

} // verus!

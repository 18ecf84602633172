//! The GPIO block as one object that owns its registers.

use crate::bits::{bit, with_bit, without_bit};
use crate::error::ConfigError;
use crate::fe310::gpio::{
    enable_inlet, enable_outlet, select_iof_func, set_as_iof, set_high, set_low, GpioMmapRegs,
    GPIO_PIN_COUNT,
};
use vstd::prelude::*;

verus! {

/// The address at which the GPIO block is mapped.
pub const GPIO_BASE_ADDR: u32 = 0x1001_2000;

/// The one GPIO block of the chip. It owns the register file; firmware
/// commits the registers to the hardware at [`GPIO_BASE_ADDR`].
pub struct Gpio {
    /// The registers of the block.
    pub regs: GpioMmapRegs,
}

impl Gpio {
    /// The block as reset leaves it.
    pub fn init() -> (gpio: Gpio)
        ensures
            gpio.regs == GpioMmapRegs::reset(),
    {
        Gpio { regs: GpioMmapRegs::new() }
    }

    /// Makes pin `p` an input.
    pub fn configure_as_in(&mut self, p: u8)
        requires
            p < GPIO_PIN_COUNT,
        ensures
            final(self).regs == (GpioMmapRegs {
                iput_async_en: with_bit(old(self).regs.iput_async_en, p),
                ..old(self).regs
            }),
            bit(final(self).regs.iput_async_en, p as int),
    {
        enable_inlet(&mut self.regs, p);
    }

    /// Makes pin `p` an output.
    pub fn configure_as_out(&mut self, p: u8)
        requires
            p < GPIO_PIN_COUNT,
        ensures
            final(self).regs == (GpioMmapRegs {
                oput_en: with_bit(old(self).regs.oput_en, p),
                ..old(self).regs
            }),
            bit(final(self).regs.oput_en, p as int),
    {
        enable_outlet(&mut self.regs, p);
    }

    /// Hands pin `p` to a peripheral.
    pub fn configure_as_io(&mut self, p: u8)
        requires
            p < GPIO_PIN_COUNT,
        ensures
            final(self).regs == (GpioMmapRegs {
                iof_en: with_bit(old(self).regs.iof_en, p),
                ..old(self).regs
            }),
            bit(final(self).regs.iof_en, p as int),
    {
        set_as_iof(&mut self.regs, p);
    }

    /// Selects which peripheral drives pin `p`: the first one for `d` = 0,
    /// the second one for `d` = 1. Any other `d` is rejected, and then
    /// nothing changes.
    pub fn select_iof(&mut self, p: u8, d: u8) -> (done: Result<(), ConfigError>)
        requires
            p < GPIO_PIN_COUNT,
        ensures
            d == 0 ==> done is Ok && final(self).regs == (GpioMmapRegs {
                iof_sel: without_bit(old(self).regs.iof_sel, p),
                ..old(self).regs
            }),
            d == 1 ==> done is Ok && final(self).regs == (GpioMmapRegs {
                iof_sel: with_bit(old(self).regs.iof_sel, p),
                ..old(self).regs
            }),
            d <= 1 ==> bit(final(self).regs.iof_sel, p as int) == (d == 1),
            d > 1 ==> done == Err::<(), ConfigError>(ConfigError::InvalidIoFunction)
                && final(self).regs == old(self).regs,
    {
        if d == 1 {
            select_iof_func(&mut self.regs, p, true);
            Ok(())
        } else if d == 0 {
            select_iof_func(&mut self.regs, p, false);
            Ok(())
        } else {
            Err(ConfigError::InvalidIoFunction)
        }
    }

    /// Drives pin `p` high.
    pub fn write_high(&mut self, p: u8)
        requires
            p < GPIO_PIN_COUNT,
        ensures
            final(self).regs == (GpioMmapRegs {
                oput_val: with_bit(old(self).regs.oput_val, p),
                ..old(self).regs
            }),
            bit(final(self).regs.oput_val, p as int),
    {
        set_high(&mut self.regs, p);
    }

    /// Drives pin `p` low.
    pub fn write_low(&mut self, p: u8)
        requires
            p < GPIO_PIN_COUNT,
        ensures
            final(self).regs == (GpioMmapRegs {
                oput_val: without_bit(old(self).regs.oput_val, p),
                ..old(self).regs
            }),
            !bit(final(self).regs.oput_val, p as int),
    {
        set_low(&mut self.regs, p);
    }
}

} // verus!

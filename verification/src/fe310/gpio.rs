//! The GPIO block of the FE310: its register file and the single-pin
//! operations on it.

use crate::bits::{
    bit, clear_bit, set_bit, test_bit, toggle_bit, with_bit, with_bit_toggled, without_bit,
};
use vstd::prelude::*;

verus! {

/// The number of pins of the block. Pin `p` is bit `p` of every register.
pub const GPIO_PIN_COUNT: u8 = 32;

/// The registers of the GPIO block, in the order of the memory map.
#[derive(Clone, Copy, Debug, PartialEq, Eq, Structural)]
pub struct GpioMmapRegs {
    /// Pin values as read from the pads.
    pub iput_val: u32,
    /// Input enable, one bit per pin.
    pub iput_async_en: u32,
    /// Output enable, one bit per pin.
    pub oput_en: u32,
    /// Output values, one bit per pin.
    pub oput_val: u32,
    /// Internal pull-up enable, one bit per pin.
    pub pue_async: u32,
    /// Drive strength, one bit per pin.
    pub ds: u32,
    /// Rise interrupt enable.
    pub rise_ie: u32,
    /// Rise interrupt pending.
    pub rise_ip: u32,
    /// Fall interrupt enable.
    pub fall_ie: u32,
    /// Fall interrupt pending.
    pub fall_ip: u32,
    /// High interrupt enable.
    pub high_ie: u32,
    /// High interrupt pending.
    pub high_ip: u32,
    /// Low interrupt enable.
    pub low_ie: u32,
    /// Low interrupt pending.
    pub low_ip: u32,
    /// Hardware function enable, one bit per pin: set, the pin belongs to a
    /// peripheral; clear, it is a plain digital pin.
    pub iof_en: u32,
    /// Hardware function select, one bit per pin: which of the two peripherals
    /// wired to the pin drives it.
    pub iof_sel: u32,
    /// Output inversion, one bit per pin.
    pub out_xor: u32,
    /// Pass-through high interrupt enable.
    pub passthru_high_en: u32,
    /// Pass-through low interrupt enable.
    pub pthru_low_en: u32,
}

impl GpioMmapRegs {
    /// The register file as reset leaves it: every register 0.
    pub fn new() -> (gpio: GpioMmapRegs)
        ensures
            gpio == Self::reset(),
    {
        GpioMmapRegs {
            iput_val: 0,
            iput_async_en: 0,
            oput_en: 0,
            oput_val: 0,
            pue_async: 0,
            ds: 0,
            rise_ie: 0,
            rise_ip: 0,
            fall_ie: 0,
            fall_ip: 0,
            high_ie: 0,
            high_ip: 0,
            low_ie: 0,
            low_ip: 0,
            iof_en: 0,
            iof_sel: 0,
            out_xor: 0,
            passthru_high_en: 0,
            pthru_low_en: 0,
        }
    }

    /// The register file after reset.
    pub open spec fn reset() -> GpioMmapRegs {
        GpioMmapRegs {
            iput_val: 0,
            iput_async_en: 0,
            oput_en: 0,
            oput_val: 0,
            pue_async: 0,
            ds: 0,
            rise_ie: 0,
            rise_ip: 0,
            fall_ie: 0,
            fall_ip: 0,
            high_ie: 0,
            high_ip: 0,
            low_ie: 0,
            low_ip: 0,
            iof_en: 0,
            iof_sel: 0,
            out_xor: 0,
            passthru_high_en: 0,
            pthru_low_en: 0,
        }
    }
}

/// Makes pin `p` an input: sets its bit in the input-enable register.
pub fn enable_inlet(gpio: &mut GpioMmapRegs, p: u8)
    requires
        p < GPIO_PIN_COUNT,
    ensures
        *final(gpio) == (GpioMmapRegs { iput_async_en: with_bit(old(gpio).iput_async_en, p), ..*old(gpio) }),
        bit(final(gpio).iput_async_en, p as int),
{
    gpio.iput_async_en = set_bit(gpio.iput_async_en, p);
}

/// Stops pin `p` from being an input: clears its bit in the input-enable
/// register.
pub fn disable_inlet(gpio: &mut GpioMmapRegs, p: u8)
    requires
        p < GPIO_PIN_COUNT,
    ensures
        *final(gpio) == (GpioMmapRegs { iput_async_en: without_bit(old(gpio).iput_async_en, p), ..*old(gpio) }),
        !bit(final(gpio).iput_async_en, p as int),
{
    gpio.iput_async_en = clear_bit(gpio.iput_async_en, p);
}

/// Makes pin `p` an output: sets its bit in the output-enable register.
pub fn enable_outlet(gpio: &mut GpioMmapRegs, p: u8)
    requires
        p < GPIO_PIN_COUNT,
    ensures
        *final(gpio) == (GpioMmapRegs { oput_en: with_bit(old(gpio).oput_en, p), ..*old(gpio) }),
        bit(final(gpio).oput_en, p as int),
{
    gpio.oput_en = set_bit(gpio.oput_en, p);
}

/// Stops pin `p` from being an output: clears its bit in the output-enable
/// register.
pub fn disable_outlet(gpio: &mut GpioMmapRegs, p: u8)
    requires
        p < GPIO_PIN_COUNT,
    ensures
        *final(gpio) == (GpioMmapRegs { oput_en: without_bit(old(gpio).oput_en, p), ..*old(gpio) }),
        !bit(final(gpio).oput_en, p as int),
{
    gpio.oput_en = clear_bit(gpio.oput_en, p);
}

/// Switches the internal pull-up of pin `p` on.
pub fn enable_pullup(gpio: &mut GpioMmapRegs, p: u8)
    requires
        p < GPIO_PIN_COUNT,
    ensures
        *final(gpio) == (GpioMmapRegs { pue_async: with_bit(old(gpio).pue_async, p), ..*old(gpio) }),
        bit(final(gpio).pue_async, p as int),
{
    gpio.pue_async = set_bit(gpio.pue_async, p);
}

/// Switches the internal pull-up of pin `p` off.
pub fn disable_pullup(gpio: &mut GpioMmapRegs, p: u8)
    requires
        p < GPIO_PIN_COUNT,
    ensures
        *final(gpio) == (GpioMmapRegs { pue_async: without_bit(old(gpio).pue_async, p), ..*old(gpio) }),
        !bit(final(gpio).pue_async, p as int),
{
    gpio.pue_async = clear_bit(gpio.pue_async, p);
}

/// Selects the high drive strength for pin `p`.
pub fn set_strong_drive(gpio: &mut GpioMmapRegs, p: u8)
    requires
        p < GPIO_PIN_COUNT,
    ensures
        *final(gpio) == (GpioMmapRegs { ds: with_bit(old(gpio).ds, p), ..*old(gpio) }),
        bit(final(gpio).ds, p as int),
{
    gpio.ds = set_bit(gpio.ds, p);
}

/// Selects the low drive strength for pin `p`.
pub fn set_weak_drive(gpio: &mut GpioMmapRegs, p: u8)
    requires
        p < GPIO_PIN_COUNT,
    ensures
        *final(gpio) == (GpioMmapRegs { ds: without_bit(old(gpio).ds, p), ..*old(gpio) }),
        !bit(final(gpio).ds, p as int),
{
    gpio.ds = clear_bit(gpio.ds, p);
}

/// Hands pin `p` to a peripheral: sets its bit in the hardware function
/// enable register.
pub fn set_as_iof(gpio: &mut GpioMmapRegs, p: u8)
    requires
        p < GPIO_PIN_COUNT,
    ensures
        *final(gpio) == (GpioMmapRegs { iof_en: with_bit(old(gpio).iof_en, p), ..*old(gpio) }),
        bit(final(gpio).iof_en, p as int),
{
    gpio.iof_en = set_bit(gpio.iof_en, p);
}

/// Makes pin `p` a plain digital pin: clears its bit in the hardware function
/// enable register.
pub fn set_as_dio(gpio: &mut GpioMmapRegs, p: u8)
    requires
        p < GPIO_PIN_COUNT,
    ensures
        *final(gpio) == (GpioMmapRegs { iof_en: without_bit(old(gpio).iof_en, p), ..*old(gpio) }),
        !bit(final(gpio).iof_en, p as int),
{
    gpio.iof_en = clear_bit(gpio.iof_en, p);
}

/// Drives pin `p` high: sets its bit in the output value register.
pub fn set_high(gpio: &mut GpioMmapRegs, p: u8)
    requires
        p < GPIO_PIN_COUNT,
    ensures
        *final(gpio) == (GpioMmapRegs { oput_val: with_bit(old(gpio).oput_val, p), ..*old(gpio) }),
        bit(final(gpio).oput_val, p as int),
{
    gpio.oput_val = set_bit(gpio.oput_val, p);
}

/// Drives pin `p` low: clears its bit in the output value register.
pub fn set_low(gpio: &mut GpioMmapRegs, p: u8)
    requires
        p < GPIO_PIN_COUNT,
    ensures
        *final(gpio) == (GpioMmapRegs { oput_val: without_bit(old(gpio).oput_val, p), ..*old(gpio) }),
        !bit(final(gpio).oput_val, p as int),
{
    gpio.oput_val = clear_bit(gpio.oput_val, p);
}

/// Selects which peripheral drives pin `p`: the second one when `s` is true,
/// the first one when it is false.
pub fn select_iof_func(gpio: &mut GpioMmapRegs, p: u8, s: bool)
    requires
        p < GPIO_PIN_COUNT,
    ensures
        s ==> *final(gpio) == (GpioMmapRegs {
            iof_sel: with_bit(old(gpio).iof_sel, p),
            ..*old(gpio)
        }),
        !s ==> *final(gpio) == (GpioMmapRegs {
            iof_sel: without_bit(old(gpio).iof_sel, p),
            ..*old(gpio)
        }),
        bit(final(gpio).iof_sel, p as int) == s,
{
    if s {
        gpio.iof_sel = set_bit(gpio.iof_sel, p);
    } else {
        gpio.iof_sel = clear_bit(gpio.iof_sel, p);
    }
}

/// Inverts the level that pin `p` drives.
pub fn toggle(gpio: &mut GpioMmapRegs, p: u8)
    requires
        p < GPIO_PIN_COUNT,
    ensures
        *final(gpio) == (GpioMmapRegs {
            oput_val: with_bit_toggled(old(gpio).oput_val, p),
            ..*old(gpio)
        }),
        bit(final(gpio).oput_val, p as int) == !bit(old(gpio).oput_val, p as int),
{
    gpio.oput_val = toggle_bit(gpio.oput_val, p);
}

/// Whether pin `p` reads high.
pub fn read_inlet(gpio: &GpioMmapRegs, p: u8) -> (high: bool)
    requires
        p < GPIO_PIN_COUNT,
    ensures
        high == bit(gpio.iput_val, p as int),
{
    test_bit(gpio.iput_val, p)
}

/// Whether pin `p` is driven high.
pub fn read_outlet(gpio: &GpioMmapRegs, p: u8) -> (high: bool)
    requires
        p < GPIO_PIN_COUNT,
    ensures
        high == bit(gpio.oput_val, p as int),
{
    test_bit(gpio.oput_val, p)
}

/// Whether pin `p` belongs to a peripheral.
pub fn is_iof(gpio: &GpioMmapRegs, p: u8) -> (iof: bool)
    requires
        p < GPIO_PIN_COUNT,
    ensures
        iof == bit(gpio.iof_en, p as int),
{
    test_bit(gpio.iof_en, p)
}

} // verus!

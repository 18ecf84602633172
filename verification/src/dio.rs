//! Digital pins, one object per pin, on top of the GPIO register file.

use crate::bits::{bit, with_bit, with_bit_toggled, without_bit};
use crate::fe310::gpio::{
    disable_inlet, disable_outlet, disable_pullup, enable_inlet, enable_outlet, enable_pullup,
    is_iof, read_inlet, read_outlet, select_iof_func, set_as_dio, set_as_iof, set_high, set_low,
    set_strong_drive, set_weak_drive, toggle, GpioMmapRegs, GPIO_PIN_COUNT,
};
use vstd::prelude::*;

verus! {

/// The number of a GPIO block.
pub type DioInstance = u8;

/// The number of a port within a block.
pub type DioPort = u8;

/// The number of a pin within a port.
pub type DioPinNum = u8;

/// One digital pin of the chip.
#[derive(Clone, Copy, Debug, PartialEq, Eq, Structural)]
pub struct DioPin {
    /// The GPIO block of the pin. The chip has one, number 0.
    pub instance: DioInstance,
    /// The port of the pin. The block has one, number 0.
    pub port: DioPort,
    /// The number of the pin, 0 to 31.
    pub pin_num: DioPinNum,
}

/// A logic level.
#[derive(Clone, Copy, Debug, PartialEq, Eq, Structural)]
pub enum DioLogic {
    /// High.
    H,
    /// Low.
    L,
}

/// The current that a pin can drive.
#[derive(Clone, Copy, Debug, PartialEq, Eq, Structural)]
pub enum DioDriveStrength {
    /// The low drive strength.
    I10ma,
    /// The high drive strength.
    I20ma,
}

/// Whether the internal pull-up of a pin is on.
#[derive(Clone, Copy, Debug, PartialEq, Eq, Structural)]
pub enum DioPullUp {
    Enabled,
    Disabled,
}

/// Who owns a pin.
#[derive(Clone, Copy, Debug, PartialEq, Eq, Structural)]
pub enum DioFuncMode {
    /// Software drives and reads the pin.
    Gpio,
    /// A peripheral drives and reads the pin.
    Mux,
}

/// The peripherals that a pin can be handed to.
#[derive(Clone, Copy, Debug, PartialEq, Eq, Structural)]
pub enum DioMuxFunctions {
    Spi,
    Pwm,
    I2c,
    Uart,
}

impl DioMuxFunctions {
    /// Whether the peripheral is the second of the two wired to each pin. On
    /// this chip the PWM channels are; SPI, I2C and the UARTs are the first.
    pub open spec fn spec_is_second(self) -> bool {
        self == DioMuxFunctions::Pwm
    }

    /// Whether the peripheral is the second of the two wired to each pin.
    #[verifier::when_used_as_spec(spec_is_second)]
    pub fn is_second(self) -> (second: bool)
        ensures
            second == self.spec_is_second(),
    {
        match self {
            DioMuxFunctions::Pwm => true,
            _ => false,
        }
    }
}

/// Everything that can be configured of one pin.
#[derive(Clone, Copy, Debug, PartialEq, Eq, Structural)]
pub struct DioConfig {
    /// The pin that the configuration is meant for.
    pub pin: DioPin,
    /// Who owns the pin.
    pub mode: DioFuncMode,
    /// The peripheral that gets the pin in mode `Mux`.
    pub func: DioMuxFunctions,
    /// The pull-up.
    pub pup: DioPullUp,
    /// The drive strength.
    pub ds: DioDriveStrength,
}

impl DioConfig {
    /// The register file after this configuration is applied to pin `p`: the
    /// four bits of the pin in the registers for mode, peripheral, pull-up and
    /// drive strength are as configured, and everything else is as in
    /// `before`.
    pub open spec fn applied(self, before: GpioMmapRegs, p: u8) -> GpioMmapRegs {
        GpioMmapRegs {
            iof_en: if self.mode == DioFuncMode::Mux {
                with_bit(before.iof_en, p)
            } else {
                without_bit(before.iof_en, p)
            },
            iof_sel: if self.func.spec_is_second() {
                with_bit(before.iof_sel, p)
            } else {
                without_bit(before.iof_sel, p)
            },
            pue_async: if self.pup == DioPullUp::Enabled {
                with_bit(before.pue_async, p)
            } else {
                without_bit(before.pue_async, p)
            },
            ds: if self.ds == DioDriveStrength::I20ma {
                with_bit(before.ds, p)
            } else {
                without_bit(before.ds, p)
            },
            ..before
        }
    }
}

impl DioPin {
    /// Whether the pin exists on this chip: block 0, port 0, pin 0 to 31.
    pub open spec fn valid(self) -> bool {
        self.instance == 0 && self.port == 0 && self.pin_num < GPIO_PIN_COUNT
    }

    /// Checks the pin before first use: tells whether it exists on this
    /// chip.
    pub fn setup_pin(&self) -> (ok: bool)
        ensures
            ok == self.valid(),
    {
        self.instance == 0 && self.port == 0 && self.pin_num < GPIO_PIN_COUNT
    }

    /// Applies `cfg` to this pin: owner, peripheral, pull-up and drive
    /// strength.
    pub fn configure_pin(&self, gpio: &mut GpioMmapRegs, cfg: DioConfig)
        requires
            self.valid(),
        ensures
            *final(gpio) == cfg.applied(*old(gpio), self.pin_num),
    {
        match cfg.mode {
            DioFuncMode::Gpio => set_as_dio(gpio, self.pin_num),
            DioFuncMode::Mux => set_as_iof(gpio, self.pin_num),
        }
        select_iof_func(gpio, self.pin_num, cfg.func.is_second());
        match cfg.pup {
            DioPullUp::Enabled => enable_pullup(gpio, self.pin_num),
            DioPullUp::Disabled => disable_pullup(gpio, self.pin_num),
        }
        match cfg.ds {
            DioDriveStrength::I10ma => set_weak_drive(gpio, self.pin_num),
            DioDriveStrength::I20ma => set_strong_drive(gpio, self.pin_num),
        }
    }

    /// Enables the pin as an input.
    pub fn enable_pin_inlet(&self, gpio: &mut GpioMmapRegs)
        requires
            self.valid(),
        ensures
            *final(gpio) == (GpioMmapRegs {
                iput_async_en: with_bit(old(gpio).iput_async_en, self.pin_num),
                ..*old(gpio)
            }),
            bit(final(gpio).iput_async_en, self.pin_num as int),
    {
        enable_inlet(gpio, self.pin_num);
    }

    /// Switches the internal pull-up of the pin on.
    pub fn enable_pin_inlet_pullup(&self, gpio: &mut GpioMmapRegs)
        requires
            self.valid(),
        ensures
            *final(gpio) == (GpioMmapRegs {
                pue_async: with_bit(old(gpio).pue_async, self.pin_num),
                ..*old(gpio)
            }),
            bit(final(gpio).pue_async, self.pin_num as int),
    {
        enable_pullup(gpio, self.pin_num);
    }

    /// Enables the pin as an output.
    pub fn enable_pin_outlet(&self, gpio: &mut GpioMmapRegs)
        requires
            self.valid(),
        ensures
            *final(gpio) == (GpioMmapRegs {
                oput_en: with_bit(old(gpio).oput_en, self.pin_num),
                ..*old(gpio)
            }),
            bit(final(gpio).oput_en, self.pin_num as int),
    {
        enable_outlet(gpio, self.pin_num);
    }

    /// The level that the pin reads.
    pub fn read_pin_inlet_state(&self, gpio: &GpioMmapRegs) -> (level: DioLogic)
        requires
            self.valid(),
        ensures
            level == (if bit(gpio.iput_val, self.pin_num as int) {
                DioLogic::H
            } else {
                DioLogic::L
            }),
    {
        if read_inlet(gpio, self.pin_num) {
            DioLogic::H
        } else {
            DioLogic::L
        }
    }

    /// The level that the pin drives.
    pub fn read_pin_outlet_state(&self, gpio: &GpioMmapRegs) -> (level: DioLogic)
        requires
            self.valid(),
        ensures
            level == (if bit(gpio.oput_val, self.pin_num as int) {
                DioLogic::H
            } else {
                DioLogic::L
            }),
    {
        if read_outlet(gpio, self.pin_num) {
            DioLogic::H
        } else {
            DioLogic::L
        }
    }

    /// Drives the pin to level `v`.
    pub fn write_pin_outlet_state(&self, gpio: &mut GpioMmapRegs, v: DioLogic)
        requires
            self.valid(),
        ensures
            *final(gpio) == (GpioMmapRegs {
                oput_val: if v == DioLogic::H {
                    with_bit(old(gpio).oput_val, self.pin_num)
                } else {
                    without_bit(old(gpio).oput_val, self.pin_num)
                },
                ..*old(gpio)
            }),
            bit(final(gpio).oput_val, self.pin_num as int) == (v == DioLogic::H),
    {
        match v {
            DioLogic::H => set_high(gpio, self.pin_num),
            DioLogic::L => set_low(gpio, self.pin_num),
        }
    }

    /// Inverts the level that the pin drives.
    pub fn toggle_pin_outlet_state(&self, gpio: &mut GpioMmapRegs)
        requires
            self.valid(),
        ensures
            *final(gpio) == (GpioMmapRegs {
                oput_val: with_bit_toggled(old(gpio).oput_val, self.pin_num),
                ..*old(gpio)
            }),
            bit(final(gpio).oput_val, self.pin_num as int) == !bit(
                old(gpio).oput_val,
                self.pin_num as int,
            ),
    {
        toggle(gpio, self.pin_num);
    }

    /// Drives the pin high.
    pub fn set_pin_outlet_high(&self, gpio: &mut GpioMmapRegs)
        requires
            self.valid(),
        ensures
            *final(gpio) == (GpioMmapRegs {
                oput_val: with_bit(old(gpio).oput_val, self.pin_num),
                ..*old(gpio)
            }),
            bit(final(gpio).oput_val, self.pin_num as int),
    {
        set_high(gpio, self.pin_num);
    }

    /// Drives the pin low.
    pub fn set_pin_outlet_low(&self, gpio: &mut GpioMmapRegs)
        requires
            self.valid(),
        ensures
            *final(gpio) == (GpioMmapRegs {
                oput_val: without_bit(old(gpio).oput_val, self.pin_num),
                ..*old(gpio)
            }),
            !bit(final(gpio).oput_val, self.pin_num as int),
    {
        set_low(gpio, self.pin_num);
    }

    /// Turns the pin into an input: input enabled, output disabled.
    pub fn set_pin_dir_as_in(&self, gpio: &mut GpioMmapRegs)
        requires
            self.valid(),
        ensures
            *final(gpio) == (GpioMmapRegs {
                iput_async_en: with_bit(old(gpio).iput_async_en, self.pin_num),
                oput_en: without_bit(old(gpio).oput_en, self.pin_num),
                ..*old(gpio)
            }),
            bit(final(gpio).iput_async_en, self.pin_num as int),
            !bit(final(gpio).oput_en, self.pin_num as int),
    {
        disable_outlet(gpio, self.pin_num);
        enable_inlet(gpio, self.pin_num);
    }

    /// Turns the pin into an output: output enabled, input disabled.
    pub fn set_pin_dir_as_out(&self, gpio: &mut GpioMmapRegs)
        requires
            self.valid(),
        ensures
            *final(gpio) == (GpioMmapRegs {
                iput_async_en: without_bit(old(gpio).iput_async_en, self.pin_num),
                oput_en: with_bit(old(gpio).oput_en, self.pin_num),
                ..*old(gpio)
            }),
            !bit(final(gpio).iput_async_en, self.pin_num as int),
            bit(final(gpio).oput_en, self.pin_num as int),
    {
        disable_inlet(gpio, self.pin_num);
        enable_outlet(gpio, self.pin_num);
    }

    /// Who owns the pin now.
    pub fn get_pin_func_mode(&self, gpio: &GpioMmapRegs) -> (mode: DioFuncMode)
        requires
            self.valid(),
        ensures
            mode == (if bit(gpio.iof_en, self.pin_num as int) {
                DioFuncMode::Mux
            } else {
                DioFuncMode::Gpio
            }),
    {
        if is_iof(gpio, self.pin_num) {
            DioFuncMode::Mux
        } else {
            DioFuncMode::Gpio
        }
    }

    /// Hands the pin to software or to a peripheral.
    pub fn set_pin_func_mode(&self, gpio: &mut GpioMmapRegs, mode: &DioFuncMode)
        requires
            self.valid(),
        ensures
            *final(gpio) == (GpioMmapRegs {
                iof_en: if *mode == DioFuncMode::Mux {
                    with_bit(old(gpio).iof_en, self.pin_num)
                } else {
                    without_bit(old(gpio).iof_en, self.pin_num)
                },
                ..*old(gpio)
            }),
            bit(final(gpio).iof_en, self.pin_num as int) == (*mode == DioFuncMode::Mux),
    {
        match mode {
            DioFuncMode::Gpio => set_as_dio(gpio, self.pin_num),
            DioFuncMode::Mux => set_as_iof(gpio, self.pin_num),
        }
    }

    /// Selects which of the two peripherals wired to the pin drives it: the
    /// second one when `s` is true.
    pub fn select_pin_iof_func(&self, gpio: &mut GpioMmapRegs, s: bool)
        requires
            self.valid(),
        ensures
            *final(gpio) == (GpioMmapRegs {
                iof_sel: if s {
                    with_bit(old(gpio).iof_sel, self.pin_num)
                } else {
                    without_bit(old(gpio).iof_sel, self.pin_num)
                },
                ..*old(gpio)
            }),
            bit(final(gpio).iof_sel, self.pin_num as int) == s,
    {
        select_iof_func(gpio, self.pin_num, s);
    }
}

} // verus!

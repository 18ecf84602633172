//! The real-time counter in the always-on domain of the FE310.
//!
//! The board feeds the counter from its 32.768 kHz crystal. The registers are
//! held as plain words; the hardware advances the counter and raises the
//! compare flag, firmware copies what it reads into [`AonRtcRegs`].

use crate::bits::{bit, clear_bit, set_bit, test_bit, with_bit, without_bit};
use crate::error::ConfigError;
use vstd::prelude::*;

verus! {

/// Bit 30 of the low-frequency oscillator configuration: set by the clock
/// selection.
pub const LFOSC_SELECT_BIT: u8 = 30;

/// Bit 0 of the low-frequency clock multiplexer: the external crystal feeds
/// the counter.
pub const LFEXT_SELECT_BIT: u8 = 0;

/// Bit 12 of the configuration register: the counter runs.
pub const RTC_ENABLE_BIT: u8 = 12;

/// Bit 28 of the configuration register: the counter has reached the compare
/// value.
pub const RTC_REACHED_BIT: u8 = 28;

/// The largest prescaler exponent.
pub const RTC_MAX_SCALE: u8 = 15;

/// The registers of the real-time counter.
#[derive(Clone, Copy, Debug, PartialEq, Eq, Structural)]
pub struct AonRtcRegs {
    /// Low-frequency oscillator configuration.
    pub lfosccfg: u32,
    /// Low-frequency clock multiplexer.
    pub lfextclksel: u32,
    /// Counter configuration: prescaler in bits 0 to 3, enable in bit 12,
    /// compare flag in bit 28.
    pub rtccfg: u32,
    /// The low 32 bits of the counter.
    pub rtccountlo: u32,
    /// The high bits of the counter.
    pub rtccounthi: u32,
    /// The counter after the prescaler.
    pub rtcs: u32,
    /// The value that the scaled counter is compared with.
    pub rtccompare: u32,
}

/// The prescaler field of a configuration word.
pub open spec fn scale_of(cfg: u32) -> u32 {
    cfg & 0xF
}

/// The configuration word `cfg` with its prescaler field replaced by `scale`.
pub open spec fn with_scale(cfg: u32, scale: u8) -> u32 {
    (cfg & !0xFu32) | (scale as u32)
}

/// The 64-bit counter value made of its two halves.
pub open spec fn spec_counter(hi: u32, lo: u32) -> int {
    hi as int * 0x1_0000_0000 + lo as int
}

/// Replacing the prescaler field stores the scale and keeps every bit above
/// the field.
pub proof fn lemma_with_scale(cfg: u32, scale: u8)
    requires
        scale <= RTC_MAX_SCALE,
    ensures
        scale_of(with_scale(cfg, scale)) == scale,
        forall|i: int| i >= 4 ==> (#[trigger] bit(with_scale(cfg, scale), i) <==> bit(cfg, i)),
{
    let s = scale as u32;
    assert(((cfg & !0xFu32) | s) & 0xF == s) by (bit_vector)
        requires
            s <= 15,
    ;
    assert forall|i: int| i >= 4 implies (#[trigger] bit(with_scale(cfg, scale), i) <==> bit(
        cfg,
        i,
    )) by {
        if i < 32 {
            let j = i as u32;
            assert(((((cfg & !0xFu32) | s) >> j) & 1 == 1) <==> ((cfg >> j) & 1 == 1))
                by (bit_vector)
                requires
                    s <= 15,
                    4 <= j < 32,
            ;
        }
    }
}

impl AonRtcRegs {
    /// The registers as reset leaves them: every register 0.
    pub open spec fn reset() -> AonRtcRegs {
        AonRtcRegs {
            lfosccfg: 0,
            lfextclksel: 0,
            rtccfg: 0,
            rtccountlo: 0,
            rtccounthi: 0,
            rtcs: 0,
            rtccompare: 0,
        }
    }

    /// The registers as reset leaves them.
    pub fn new() -> (regs: AonRtcRegs)
        ensures
            regs == Self::reset(),
    {
        AonRtcRegs {
            lfosccfg: 0,
            lfextclksel: 0,
            rtccfg: 0,
            rtccountlo: 0,
            rtccounthi: 0,
            rtcs: 0,
            rtccompare: 0,
        }
    }

    /// The registers after the crystal is selected as the clock.
    pub open spec fn after_clksel(self) -> AonRtcRegs {
        AonRtcRegs {
            lfosccfg: with_bit(self.lfosccfg, LFOSC_SELECT_BIT),
            lfextclksel: with_bit(self.lfextclksel, LFEXT_SELECT_BIT),
            ..self
        }
    }

    /// The registers after counter and compare value are cleared.
    pub open spec fn after_counter_reset(self) -> AonRtcRegs {
        AonRtcRegs { rtccounthi: 0, rtccountlo: 0, rtccompare: 0, ..self }
    }

    /// The registers after the counter is switched on or off.
    pub open spec fn after_set_enable(self, on: bool) -> AonRtcRegs {
        if on {
            AonRtcRegs { rtccfg: with_bit(self.rtccfg, RTC_ENABLE_BIT), ..self }
        } else {
            AonRtcRegs { rtccfg: without_bit(self.rtccfg, RTC_ENABLE_BIT), ..self }
        }
    }

    /// The registers after the prescaler is set to `scale`.
    pub open spec fn after_set_scale(self, scale: u8) -> AonRtcRegs {
        AonRtcRegs { rtccfg: with_scale(self.rtccfg, scale), ..self }
    }

    /// Whether the counter runs.
    pub open spec fn running(self) -> bool {
        bit(self.rtccfg, 12)
    }

    /// Whether the scaled counter has reached the compare value.
    pub open spec fn reached(self) -> bool {
        bit(self.rtccfg, 28)
    }
}

/// Selects the 32.768 kHz crystal as the clock of the counter.
pub fn clksel_32768k(regs: &mut AonRtcRegs)
    ensures
        *final(regs) == old(regs).after_clksel(),
{
    regs.lfosccfg = set_bit(regs.lfosccfg, LFOSC_SELECT_BIT);
    regs.lfextclksel = set_bit(regs.lfextclksel, LFEXT_SELECT_BIT);
}

/// Clears the counter and the compare value.
pub fn reset_rtc_counter(regs: &mut AonRtcRegs)
    ensures
        *final(regs) == old(regs).after_counter_reset(),
{
    regs.rtccounthi = 0;
    regs.rtccountlo = 0;
    regs.rtccompare = 0;
}

/// Starts the counter afresh: selects the crystal, clears counter and compare
/// value, and lets the counter run.
pub fn restart(regs: &mut AonRtcRegs)
    ensures
        *final(regs) == old(regs).after_clksel().after_counter_reset().after_set_enable(true),
        final(regs).running(),
{
    clksel_32768k(regs);
    reset_rtc_counter(regs);
    regs.rtccfg = set_bit(regs.rtccfg, RTC_ENABLE_BIT);
}

/// Sets the prescaler: the scaled counter advances once every 2 to the power
/// of `scale` ticks. Rejects a `scale` above 15 and then changes nothing.
pub fn set_scale(regs: &mut AonRtcRegs, scale: u8) -> (done: Result<(), ConfigError>)
    ensures
        scale <= RTC_MAX_SCALE ==> done is Ok && *final(regs) == old(regs).after_set_scale(scale)
            && scale_of(final(regs).rtccfg) == scale,
        scale > RTC_MAX_SCALE ==> done == Err::<(), ConfigError>(ConfigError::InvalidScale)
            && *final(regs) == *old(regs),
{
    if scale > RTC_MAX_SCALE {
        return Err(ConfigError::InvalidScale);
    }
    proof {
        lemma_with_scale(regs.rtccfg, scale);
    }
    regs.rtccfg = (regs.rtccfg & !0xFu32) | (scale as u32);
    Ok(())
}

/// Reads the whole counter: the high register above the low one.
pub fn get_rtc_counter(regs: &AonRtcRegs) -> (ticks: u64)
    ensures
        ticks == spec_counter(regs.rtccounthi, regs.rtccountlo),
{
    let hi = regs.rtccounthi as u64;
    let lo = regs.rtccountlo as u64;
    assert((hi << 32) | lo == hi * 0x1_0000_0000 + lo) by (bit_vector)
        requires
            hi <= 0xFFFF_FFFF,
            lo <= 0xFFFF_FFFF,
    ;
    (hi << 32) | lo
}

/// Reads the scaled counter.
pub fn get_rtcs(regs: &AonRtcRegs) -> (secs: u32)
    ensures
        secs == regs.rtcs,
{
    regs.rtcs
}

/// Sets the value that the scaled counter is compared with.
pub fn set_rtc_cmp(regs: &mut AonRtcRegs, v: u32)
    ensures
        *final(regs) == (AonRtcRegs { rtccompare: v, ..*old(regs) }),
{
    regs.rtccompare = v;
}

/// Lets the counter run.
pub fn enable(regs: &mut AonRtcRegs)
    ensures
        *final(regs) == old(regs).after_set_enable(true),
        final(regs).running(),
{
    regs.rtccfg = set_bit(regs.rtccfg, RTC_ENABLE_BIT);
}

/// Stops the counter.
pub fn disable(regs: &mut AonRtcRegs)
    ensures
        *final(regs) == old(regs).after_set_enable(false),
        !final(regs).running(),
{
    regs.rtccfg = clear_bit(regs.rtccfg, RTC_ENABLE_BIT);
}

/// Whether the scaled counter has reached the compare value.
pub fn is_cmp_reached(regs: &AonRtcRegs) -> (reached: bool)
    ensures
        reached == regs.reached(),
{
    test_bit(regs.rtccfg, RTC_REACHED_BIT)
}

} // verus!

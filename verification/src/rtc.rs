//! The calendar clock on top of the real-time counter.

use crate::fe310::rtc::{
    clksel_32768k, enable, get_rtc_counter, get_rtcs, reset_rtc_counter, set_rtc_cmp, set_scale,
    spec_counter, AonRtcRegs, RTC_MAX_SCALE,
};
use vstd::prelude::*;

verus! {

/// Ticks of the crystal per second.
pub const TICKS_PER_SEC: u16 = 32768;

/// Ticks of the crystal per minute.
pub const TICKS_PER_MIN: u32 = 1_966_080;

/// Ticks of the crystal per hour.
pub const TICKS_PER_HR: u32 = 117_964_800;

/// Ticks of the crystal per day.
pub const TICKS_PER_DAY: u32 = 2_831_155_200;

/// The months of the year.
#[derive(Clone, Copy, Debug, PartialEq, Eq, Structural)]
pub enum RtcMonths {
    January,
    February,
    March,
    April,
    May,
    June,
    July,
    August,
    September,
    October,
    November,
    December,
}

/// A calendar date.
#[derive(Clone, Copy, Debug, PartialEq, Eq, Structural)]
pub struct RtcDate {
    pub year: u16,
    pub month: RtcMonths,
    /// The week of the year.
    pub week: u8,
    /// The day of the month.
    pub day: u8,
}

/// A time of day.
#[derive(Clone, Copy, Debug, PartialEq, Eq, Structural)]
pub struct RtcTime {
    pub hours: u8,
    pub mins: u8,
    pub secs: u8,
}

/// The calendar clock: the date and time last set, and the counter value at
/// which they were set.
pub struct Rtc {
    date: RtcDate,
    time: RtcTime,
    ticks: u64,
    ready: bool,
}

/// The date of a clock that was never set: 1 January 1970, in week 1.
pub open spec fn epoch_date() -> RtcDate {
    RtcDate { year: 1970, month: RtcMonths::January, week: 1, day: 1 }
}

/// The time of a clock that was never set: midnight.
pub open spec fn epoch_time() -> RtcTime {
    RtcTime { hours: 0, mins: 0, secs: 0 }
}

impl Rtc {
    /// The date last set.
    pub closed spec fn spec_date(&self) -> RtcDate {
        self.date
    }

    /// The time last set.
    pub closed spec fn spec_time(&self) -> RtcTime {
        self.time
    }

    /// The counter value at which date or time was last set, or a wait was
    /// last begun.
    pub closed spec fn spec_ticks(&self) -> u64 {
        self.ticks
    }

    /// Whether the clock has been marked ready.
    pub closed spec fn spec_ready(&self) -> bool {
        self.ready
    }

    /// Prepares the counter and hands out a clock that stands at the epoch:
    /// the counter is cleared, fed from the crystal, and scaled down by 2 to
    /// the power of 15, so that the scaled counter counts seconds.
    pub fn init(regs: &mut AonRtcRegs) -> (rtc: Rtc)
        ensures
            *final(regs) == old(regs).after_counter_reset().after_clksel().after_set_scale(
                RTC_MAX_SCALE,
            ),
            rtc.spec_date() == epoch_date(),
            rtc.spec_time() == epoch_time(),
            rtc.spec_ticks() == 0,
            !rtc.spec_ready(),
    {
        reset_rtc_counter(regs);
        clksel_32768k(regs);
        let _ = set_scale(regs, RTC_MAX_SCALE);
        Rtc {
            date: RtcDate { year: 1970, month: RtcMonths::January, week: 1, day: 1 },
            time: RtcTime { hours: 0, mins: 0, secs: 0 },
            ticks: 0,
            ready: false,
        }
    }

    /// Lets the counter run.
    pub fn enable(&self, regs: &mut AonRtcRegs)
        ensures
            *final(regs) == old(regs).after_set_enable(true),
            final(regs).running(),
    {
        enable(regs);
    }

    /// The seconds counted so far.
    pub fn secs_now(&self, regs: &AonRtcRegs) -> (secs: u32)
        ensures
            secs == regs.rtcs,
    {
        get_rtcs(regs)
    }

    /// Begins a wait of `s` seconds: notes the counter and sets the compare
    /// value to `s` seconds from now. The wait is over once the compare flag
    /// of the counter is raised; until then the caller polls it.
    pub fn wait_in_secs(&mut self, regs: &mut AonRtcRegs, s: u32)
        requires
            old(regs).rtcs + s <= u32::MAX,
        ensures
            final(self).spec_ticks() == spec_counter(old(regs).rtccounthi, old(regs).rtccountlo),
            final(self).spec_date() == old(self).spec_date(),
            final(self).spec_time() == old(self).spec_time(),
            final(self).spec_ready() == old(self).spec_ready(),
            *final(regs) == (AonRtcRegs { rtccompare: (old(regs).rtcs + s) as u32, ..*old(regs) }),
    {
        self.ticks = get_rtc_counter(regs);
        let secs_now = get_rtcs(regs);
        arm(regs, secs_now + s);
    }

    /// Sets the time of day and notes the counter.
    pub fn set_time(&mut self, regs: &AonRtcRegs, time: RtcTime)
        ensures
            final(self).spec_time() == time,
            final(self).spec_ticks() == spec_counter(regs.rtccounthi, regs.rtccountlo),
            final(self).spec_date() == old(self).spec_date(),
            final(self).spec_ready() == old(self).spec_ready(),
    {
        self.ticks = get_rtc_counter(regs);
        self.time = time;
    }

    /// Sets the date and notes the counter.
    pub fn set_date(&mut self, regs: &AonRtcRegs, date: RtcDate)
        ensures
            final(self).spec_date() == date,
            final(self).spec_ticks() == spec_counter(regs.rtccounthi, regs.rtccountlo),
            final(self).spec_time() == old(self).spec_time(),
            final(self).spec_ready() == old(self).spec_ready(),
    {
        self.ticks = get_rtc_counter(regs);
        self.date = date;
    }

    /// The date last set.
    #[verifier::when_used_as_spec(spec_date)]
    pub fn date(&self) -> (date: RtcDate)
        ensures
            date == self.spec_date(),
    {
        self.date
    }

    /// The time last set.
    #[verifier::when_used_as_spec(spec_time)]
    pub fn time(&self) -> (time: RtcTime)
        ensures
            time == self.spec_time(),
    {
        self.time
    }

    /// The counter value at which date or time was last set, or a wait was
    /// last begun.
    #[verifier::when_used_as_spec(spec_ticks)]
    pub fn ticks(&self) -> (ticks: u64)
        ensures
            ticks == self.spec_ticks(),
    {
        self.ticks
    }
}

/// Sets the compare value of the counter.
fn arm(regs: &mut AonRtcRegs, at: u32)
    ensures
        *final(regs) == (AonRtcRegs { rtccompare: at, ..*old(regs) }),
{
    set_rtc_cmp(regs, at);
}

} // verus!

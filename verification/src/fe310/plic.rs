//! The platform-level interrupt controller: its sources and priority levels,
//! its register file, and the claim/complete protocol.
//!
//! [`PlicState`] is the mathematical model of the controller and says what
//! every operation does. [`PlicRegisterFile`] holds the same state in register
//! words, as the hardware lays it out.

use crate::bits::{bit, clear_bit, lemma_zero_bits, set_bit, test_bit, with_bit, without_bit};
use crate::error::ConfigError;
use vstd::prelude::*;

verus! {

/// The number of interrupt sources wired to the controller. Source
/// identifiers run from 1 to this number; identifier 0 means "no interrupt".
pub const COUNT_PLIC_INTR_SRCS: u32 = 52;

/// The highest priority level, which as a threshold masks every source.
pub const PLIC_MAX_PRIORITY: u32 = 7;

/// The scale on which both the priority of a source and the threshold of the
/// hart are set. A source interrupts the hart only while its priority is
/// strictly above the threshold, so level 0 keeps a source silent and a
/// threshold of level 7 masks all of them.
#[allow(non_camel_case_types)]
#[derive(Clone, Copy, Debug, PartialEq, Eq, Structural)]
pub enum PlicIntrPriorityLevels {
    level0_lowest,
    level1,
    level2,
    level3,
    level4,
    level5,
    level6,
    level7_highest,
}

impl PlicIntrPriorityLevels {
    /// The number that the level stands for, 0 to 7.
    pub open spec fn spec_level(self) -> nat {
        match self {
            PlicIntrPriorityLevels::level0_lowest => 0,
            PlicIntrPriorityLevels::level1 => 1,
            PlicIntrPriorityLevels::level2 => 2,
            PlicIntrPriorityLevels::level3 => 3,
            PlicIntrPriorityLevels::level4 => 4,
            PlicIntrPriorityLevels::level5 => 5,
            PlicIntrPriorityLevels::level6 => 6,
            PlicIntrPriorityLevels::level7_highest => 7,
        }
    }

    /// The word written to a priority or threshold register for this level.
    pub fn level(&self) -> (v: u32)
        ensures
            v == self.spec_level(),
            v <= PLIC_MAX_PRIORITY,
    {
        match self {
            PlicIntrPriorityLevels::level0_lowest => 0,
            PlicIntrPriorityLevels::level1 => 1,
            PlicIntrPriorityLevels::level2 => 2,
            PlicIntrPriorityLevels::level3 => 3,
            PlicIntrPriorityLevels::level4 => 4,
            PlicIntrPriorityLevels::level5 => 5,
            PlicIntrPriorityLevels::level6 => 6,
            PlicIntrPriorityLevels::level7_highest => 7,
        }
    }

    /// The level for a register word: some level exactly for the words 0 to
    /// 7, and none for a larger one.
    pub fn from_level(v: u32) -> (level: Option<PlicIntrPriorityLevels>)
        ensures
            v <= PLIC_MAX_PRIORITY <==> level is Some,
            level matches Some(l) ==> l.spec_level() == v,
    {
        match v {
            0 => Some(PlicIntrPriorityLevels::level0_lowest),
            1 => Some(PlicIntrPriorityLevels::level1),
            2 => Some(PlicIntrPriorityLevels::level2),
            3 => Some(PlicIntrPriorityLevels::level3),
            4 => Some(PlicIntrPriorityLevels::level4),
            5 => Some(PlicIntrPriorityLevels::level5),
            6 => Some(PlicIntrPriorityLevels::level6),
            7 => Some(PlicIntrPriorityLevels::level7_highest),
            _ => None,
        }
    }
}

/// The interrupt sources of the chip, in the order in which the hardware
/// numbers them, and the selector `all`.
#[allow(non_camel_case_types)]
#[derive(Clone, Copy, Debug, PartialEq, Eq, Structural)]
pub enum PlicIntrSources {
    aon_wdog,
    aon_rtc,
    uart0,
    uart1,
    qspi0,
    spi1,
    spi2,
    gpio0,
    gpio1,
    gpio2,
    gpio3,
    gpio4,
    gpio5,
    gpio6,
    gpio7,
    gpio8,
    gpio9,
    gpio10,
    gpio11,
    gpio12,
    gpio13,
    gpio14,
    gpio15,
    gpio16,
    gpio17,
    gpio18,
    gpio19,
    gpio20,
    gpio21,
    gpio22,
    gpio23,
    gpio24,
    gpio25,
    gpio26,
    gpio27,
    gpio28,
    gpio29,
    gpio30,
    gpio31,
    pwm0a,
    pwm0b,
    pwm0c,
    pwm0d,
    pwm1a,
    pwm1b,
    pwm1c,
    pwm1d,
    pwm2a,
    pwm2b,
    pwm2c,
    pwm2d,
    i2c,
    /// Every source at once; accepted only where a call says so.
    all,
}

impl PlicIntrSources {
    /// The identifier that the hardware gives the source: its index in the
    /// priority table and its bit in the enable and pending words. The
    /// selector `all` has the number after the last source.
    pub open spec fn spec_id(self) -> nat {
        match self {
            PlicIntrSources::aon_wdog => 1,
            PlicIntrSources::aon_rtc => 2,
            PlicIntrSources::uart0 => 3,
            PlicIntrSources::uart1 => 4,
            PlicIntrSources::qspi0 => 5,
            PlicIntrSources::spi1 => 6,
            PlicIntrSources::spi2 => 7,
            PlicIntrSources::gpio0 => 8,
            PlicIntrSources::gpio1 => 9,
            PlicIntrSources::gpio2 => 10,
            PlicIntrSources::gpio3 => 11,
            PlicIntrSources::gpio4 => 12,
            PlicIntrSources::gpio5 => 13,
            PlicIntrSources::gpio6 => 14,
            PlicIntrSources::gpio7 => 15,
            PlicIntrSources::gpio8 => 16,
            PlicIntrSources::gpio9 => 17,
            PlicIntrSources::gpio10 => 18,
            PlicIntrSources::gpio11 => 19,
            PlicIntrSources::gpio12 => 20,
            PlicIntrSources::gpio13 => 21,
            PlicIntrSources::gpio14 => 22,
            PlicIntrSources::gpio15 => 23,
            PlicIntrSources::gpio16 => 24,
            PlicIntrSources::gpio17 => 25,
            PlicIntrSources::gpio18 => 26,
            PlicIntrSources::gpio19 => 27,
            PlicIntrSources::gpio20 => 28,
            PlicIntrSources::gpio21 => 29,
            PlicIntrSources::gpio22 => 30,
            PlicIntrSources::gpio23 => 31,
            PlicIntrSources::gpio24 => 32,
            PlicIntrSources::gpio25 => 33,
            PlicIntrSources::gpio26 => 34,
            PlicIntrSources::gpio27 => 35,
            PlicIntrSources::gpio28 => 36,
            PlicIntrSources::gpio29 => 37,
            PlicIntrSources::gpio30 => 38,
            PlicIntrSources::gpio31 => 39,
            PlicIntrSources::pwm0a => 40,
            PlicIntrSources::pwm0b => 41,
            PlicIntrSources::pwm0c => 42,
            PlicIntrSources::pwm0d => 43,
            PlicIntrSources::pwm1a => 44,
            PlicIntrSources::pwm1b => 45,
            PlicIntrSources::pwm1c => 46,
            PlicIntrSources::pwm1d => 47,
            PlicIntrSources::pwm2a => 48,
            PlicIntrSources::pwm2b => 49,
            PlicIntrSources::pwm2c => 50,
            PlicIntrSources::pwm2d => 51,
            PlicIntrSources::i2c => 52,
            PlicIntrSources::all => 53,
        }
    }

    /// Whether this names one source rather than all of them.
    pub open spec fn is_source(self) -> bool {
        self != PlicIntrSources::all
    }

    /// The identifier of the source, as the claim register reports it.
    pub fn id(&self) -> (id: u32)
        ensures
            id == self.spec_id(),
            1 <= id <= COUNT_PLIC_INTR_SRCS + 1,
            self.is_source() <==> id <= COUNT_PLIC_INTR_SRCS,
    {
        match self {
            PlicIntrSources::aon_wdog => 1,
            PlicIntrSources::aon_rtc => 2,
            PlicIntrSources::uart0 => 3,
            PlicIntrSources::uart1 => 4,
            PlicIntrSources::qspi0 => 5,
            PlicIntrSources::spi1 => 6,
            PlicIntrSources::spi2 => 7,
            PlicIntrSources::gpio0 => 8,
            PlicIntrSources::gpio1 => 9,
            PlicIntrSources::gpio2 => 10,
            PlicIntrSources::gpio3 => 11,
            PlicIntrSources::gpio4 => 12,
            PlicIntrSources::gpio5 => 13,
            PlicIntrSources::gpio6 => 14,
            PlicIntrSources::gpio7 => 15,
            PlicIntrSources::gpio8 => 16,
            PlicIntrSources::gpio9 => 17,
            PlicIntrSources::gpio10 => 18,
            PlicIntrSources::gpio11 => 19,
            PlicIntrSources::gpio12 => 20,
            PlicIntrSources::gpio13 => 21,
            PlicIntrSources::gpio14 => 22,
            PlicIntrSources::gpio15 => 23,
            PlicIntrSources::gpio16 => 24,
            PlicIntrSources::gpio17 => 25,
            PlicIntrSources::gpio18 => 26,
            PlicIntrSources::gpio19 => 27,
            PlicIntrSources::gpio20 => 28,
            PlicIntrSources::gpio21 => 29,
            PlicIntrSources::gpio22 => 30,
            PlicIntrSources::gpio23 => 31,
            PlicIntrSources::gpio24 => 32,
            PlicIntrSources::gpio25 => 33,
            PlicIntrSources::gpio26 => 34,
            PlicIntrSources::gpio27 => 35,
            PlicIntrSources::gpio28 => 36,
            PlicIntrSources::gpio29 => 37,
            PlicIntrSources::gpio30 => 38,
            PlicIntrSources::gpio31 => 39,
            PlicIntrSources::pwm0a => 40,
            PlicIntrSources::pwm0b => 41,
            PlicIntrSources::pwm0c => 42,
            PlicIntrSources::pwm0d => 43,
            PlicIntrSources::pwm1a => 44,
            PlicIntrSources::pwm1b => 45,
            PlicIntrSources::pwm1c => 46,
            PlicIntrSources::pwm1d => 47,
            PlicIntrSources::pwm2a => 48,
            PlicIntrSources::pwm2b => 49,
            PlicIntrSources::pwm2c => 50,
            PlicIntrSources::pwm2d => 51,
            PlicIntrSources::i2c => 52,
            PlicIntrSources::all => 53,
        }
    }

    /// The source with the given identifier: some source exactly for the
    /// identifiers 1 to 52.
    pub fn from_id(id: u32) -> (src: Option<PlicIntrSources>)
        ensures
            1 <= id <= COUNT_PLIC_INTR_SRCS <==> src is Some,
            src matches Some(s) ==> s.spec_id() == id && s.is_source(),
    {
        match id {
            1 => Some(PlicIntrSources::aon_wdog),
            2 => Some(PlicIntrSources::aon_rtc),
            3 => Some(PlicIntrSources::uart0),
            4 => Some(PlicIntrSources::uart1),
            5 => Some(PlicIntrSources::qspi0),
            6 => Some(PlicIntrSources::spi1),
            7 => Some(PlicIntrSources::spi2),
            8 => Some(PlicIntrSources::gpio0),
            9 => Some(PlicIntrSources::gpio1),
            10 => Some(PlicIntrSources::gpio2),
            11 => Some(PlicIntrSources::gpio3),
            12 => Some(PlicIntrSources::gpio4),
            13 => Some(PlicIntrSources::gpio5),
            14 => Some(PlicIntrSources::gpio6),
            15 => Some(PlicIntrSources::gpio7),
            16 => Some(PlicIntrSources::gpio8),
            17 => Some(PlicIntrSources::gpio9),
            18 => Some(PlicIntrSources::gpio10),
            19 => Some(PlicIntrSources::gpio11),
            20 => Some(PlicIntrSources::gpio12),
            21 => Some(PlicIntrSources::gpio13),
            22 => Some(PlicIntrSources::gpio14),
            23 => Some(PlicIntrSources::gpio15),
            24 => Some(PlicIntrSources::gpio16),
            25 => Some(PlicIntrSources::gpio17),
            26 => Some(PlicIntrSources::gpio18),
            27 => Some(PlicIntrSources::gpio19),
            28 => Some(PlicIntrSources::gpio20),
            29 => Some(PlicIntrSources::gpio21),
            30 => Some(PlicIntrSources::gpio22),
            31 => Some(PlicIntrSources::gpio23),
            32 => Some(PlicIntrSources::gpio24),
            33 => Some(PlicIntrSources::gpio25),
            34 => Some(PlicIntrSources::gpio26),
            35 => Some(PlicIntrSources::gpio27),
            36 => Some(PlicIntrSources::gpio28),
            37 => Some(PlicIntrSources::gpio29),
            38 => Some(PlicIntrSources::gpio30),
            39 => Some(PlicIntrSources::gpio31),
            40 => Some(PlicIntrSources::pwm0a),
            41 => Some(PlicIntrSources::pwm0b),
            42 => Some(PlicIntrSources::pwm0c),
            43 => Some(PlicIntrSources::pwm0d),
            44 => Some(PlicIntrSources::pwm1a),
            45 => Some(PlicIntrSources::pwm1b),
            46 => Some(PlicIntrSources::pwm1c),
            47 => Some(PlicIntrSources::pwm1d),
            48 => Some(PlicIntrSources::pwm2a),
            49 => Some(PlicIntrSources::pwm2b),
            50 => Some(PlicIntrSources::pwm2c),
            51 => Some(PlicIntrSources::pwm2d),
            52 => Some(PlicIntrSources::i2c),
            _ => None,
        }
    }
}

/// A set of source identifiers held as two 32-bit words, the layout of the
/// controller's enable and pending registers: identifier `s` is bit `s % 32`
/// of word `s / 32`.
#[derive(Clone, Copy, Debug, PartialEq, Eq, Structural)]
pub struct SourceMask {
    /// Identifiers 0 to 31.
    pub word1: u32,
    /// Identifiers 32 to 63.
    pub word2: u32,
}

impl View for SourceMask {
    type V = Set<int>;

    open spec fn view(&self) -> Set<int> {
        Set::new(
            |s: int|
                if s < 32 {
                    bit(self.word1, s)
                } else {
                    bit(self.word2, s - 32)
                },
        )
    }
}

impl SourceMask {
    /// The empty set.
    pub fn new() -> (mask: SourceMask)
        ensures
            mask.word1 == 0,
            mask.word2 == 0,
            mask@ == Set::<int>::empty(),
    {
        let mask = SourceMask { word1: 0, word2: 0 };
        proof {
            lemma_zero_bits();
            assert(mask@ =~= Set::<int>::empty());
        }
        mask
    }

    /// Whether identifier `s` is in the set.
    pub fn contains(&self, s: u32) -> (found: bool)
        requires
            s < 64,
        ensures
            found == self@.contains(s as int),
    {
        if s < 32 {
            test_bit(self.word1, s as u8)
        } else {
            test_bit(self.word2, (s - 32) as u8)
        }
    }

    /// The set with identifier `s` added.
    pub fn with(self, s: u32) -> (out: SourceMask)
        requires
            s < 64,
        ensures
            out@ == self@.insert(s as int),
            s < 32 ==> out.word1 == with_bit(self.word1, s as u8) && out.word2 == self.word2,
            s >= 32 ==> out.word1 == self.word1 && out.word2 == with_bit(
                self.word2,
                (s - 32) as u8,
            ),
    {
        let out = if s < 32 {
            SourceMask { word1: set_bit(self.word1, s as u8), word2: self.word2 }
        } else {
            SourceMask { word1: self.word1, word2: set_bit(self.word2, (s - 32) as u8) }
        };
        assert(out@ =~= self@.insert(s as int));
        out
    }

    /// The set with identifier `s` removed.
    pub fn without(self, s: u32) -> (out: SourceMask)
        requires
            s < 64,
        ensures
            out@ == self@.remove(s as int),
            s < 32 ==> out.word1 == without_bit(self.word1, s as u8) && out.word2 == self.word2,
            s >= 32 ==> out.word1 == self.word1 && out.word2 == without_bit(
                self.word2,
                (s - 32) as u8,
            ),
    {
        let out = if s < 32 {
            SourceMask { word1: clear_bit(self.word1, s as u8), word2: self.word2 }
        } else {
            SourceMask { word1: self.word1, word2: clear_bit(self.word2, (s - 32) as u8) }
        };
        assert(out@ =~= self@.remove(s as int));
        out
    }
}

/// The controller as mathematics: what is configured and what is in flight.
///
/// A source is *pending* from the moment its gateway forwards a request until
/// the hart claims it, and *in service* from the claim until the matching
/// completion. While a source is in service its gateway forwards nothing.
pub struct PlicState {
    /// The priority of each source, indexed by identifier. Entry 0 belongs to
    /// no source.
    pub priority: Seq<u32>,
    /// The sources with a request waiting to be claimed.
    pub pending: Set<int>,
    /// The sources that may interrupt the hart.
    pub enabled: Set<int>,
    /// The sources claimed and not yet completed.
    pub in_service: Set<int>,
    /// The priority that a source must exceed to interrupt the hart.
    pub threshold: u32,
}

impl PlicState {
    /// Whether `s` is the identifier of a source.
    pub open spec fn is_source(s: int) -> bool {
        1 <= s <= COUNT_PLIC_INTR_SRCS
    }

    /// The state after reset: nothing enabled, nothing pending, every
    /// priority and the threshold at 0.
    pub open spec fn reset() -> PlicState {
        PlicState {
            priority: Seq::new(53, |s: int| 0u32),
            pending: Set::empty(),
            enabled: Set::empty(),
            in_service: Set::empty(),
            threshold: 0,
        }
    }

    /// What holds of the controller at all times: levels stay within 0 to 7,
    /// only sources are ever enabled, pending or in service, and a source in
    /// service is not pending.
    pub open spec fn wf(self) -> bool {
        &&& self.priority.len() == COUNT_PLIC_INTR_SRCS + 1
        &&& forall|s: int|
            0 <= s <= COUNT_PLIC_INTR_SRCS ==> #[trigger] self.priority[s] <= PLIC_MAX_PRIORITY
        &&& self.threshold <= PLIC_MAX_PRIORITY
        &&& forall|s: int| #[trigger] self.pending.contains(s) ==> Self::is_source(s)
        &&& forall|s: int| #[trigger] self.enabled.contains(s) ==> Self::is_source(s)
        &&& forall|s: int|
            #[trigger] self.in_service.contains(s) ==> Self::is_source(s) && !self.pending.contains(
                s,
            )
    }

    /// Whether a claim may return `s`: it is a source with a request pending,
    /// it is enabled, and its priority is not 0.
    pub open spec fn claimable(self, s: int) -> bool {
        &&& Self::is_source(s)
        &&& self.pending.contains(s)
        &&& self.enabled.contains(s)
        &&& self.priority[s] > 0
    }

    /// Whether `s` is served before `t`: by higher priority, and among equal
    /// priorities by lower identifier.
    pub open spec fn outranks(self, s: int, t: int) -> bool {
        self.priority[s] > self.priority[t] || (self.priority[s] == self.priority[t] && s <= t)
    }

    /// Whether `s` is the source that the next claim returns.
    pub open spec fn wins(self, s: int) -> bool {
        &&& self.claimable(s)
        &&& forall|t: int| #[trigger] self.claimable(t) ==> self.outranks(s, t)
    }

    /// What a read of the claim register returns: the identifier of the
    /// claimable source that outranks all others, or 0 when there is none.
    pub open spec fn claim_id(self) -> int {
        if exists|s: int| self.wins(s) {
            choose|s: int| self.wins(s)
        } else {
            0
        }
    }

    /// The state after `level` is written to the priority of source `id`.
    pub open spec fn after_set_priority(self, id: int, level: u32) -> PlicState {
        PlicState { priority: self.priority.update(id, level), ..self }
    }

    /// The state after `level` is written to the threshold register.
    pub open spec fn after_set_threshold(self, level: u32) -> PlicState {
        PlicState { threshold: level, ..self }
    }

    /// The state after source `id` is enabled.
    pub open spec fn after_enable(self, id: int) -> PlicState {
        PlicState { enabled: self.enabled.insert(id), ..self }
    }

    /// The state after source `id` is disabled.
    pub open spec fn after_disable(self, id: int) -> PlicState {
        PlicState { enabled: self.enabled.remove(id), ..self }
    }

    /// The state after every source is disabled.
    pub open spec fn after_disable_all(self) -> PlicState {
        PlicState { enabled: Set::empty(), ..self }
    }

    /// The state after a read of the claim register: the source returned is
    /// no longer pending and is in service. With nothing to claim the state
    /// stays as it is.
    pub open spec fn after_claim(self) -> PlicState {
        let id = self.claim_id();
        if id == 0 {
            self
        } else {
            PlicState {
                pending: self.pending.remove(id),
                in_service: self.in_service.insert(id),
                ..self
            }
        }
    }

    /// The state after `id` is written to the claim register: that source is
    /// no longer in service. Nothing else changes, whichever source the hart
    /// had claimed.
    pub open spec fn after_complete(self, id: int) -> PlicState {
        PlicState { in_service: self.in_service.remove(id), ..self }
    }

    /// The state after the device behind source `s` requests an interrupt:
    /// the request becomes pending unless the source is in service.
    pub open spec fn after_raise(self, s: int) -> PlicState {
        if self.in_service.contains(s) {
            self
        } else {
            PlicState { pending: self.pending.insert(s), ..self }
        }
    }

    /// The state after the requests `sources` arrive one after the other.
    pub open spec fn after_raises(self, sources: Seq<int>) -> PlicState
        decreases sources.len(),
    {
        if sources.len() == 0 {
            self
        } else {
            self.after_raises(sources.drop_last()).after_raise(sources.last())
        }
    }

    /// Whether the controller signals an external interrupt to the hart: some
    /// claimable source has a priority strictly above the threshold.
    pub open spec fn interrupt_pending(self) -> bool {
        exists|s: int| self.claimable(s) && #[trigger] self.priority[s] > self.threshold
    }

    /// At most one source wins.
    pub proof fn lemma_winner_unique(self, s: int, t: int)
        requires
            self.wins(s),
            self.wins(t),
        ensures
            s == t,
    {
        assert(self.outranks(s, t));
        assert(self.outranks(t, s));
    }

    /// Configuration leaves the controller well-formed: a threshold of at
    /// most 7, and enabling or disabling any source.
    pub proof fn lemma_configure_wf(self, id: int, level: u32)
        requires
            self.wf(),
            Self::is_source(id),
            level <= PLIC_MAX_PRIORITY,
        ensures
            self.after_set_priority(id, level).wf(),
            self.after_set_threshold(level).wf(),
            self.after_enable(id).wf(),
            self.after_disable(id).wf(),
            self.after_disable_all().wf(),
    {
        let on = self.after_enable(id);
        assert forall|t: int| #[trigger] on.enabled.contains(t) implies Self::is_source(t) by {
            assert(t == id || self.enabled.contains(t));
        }
        let off = self.after_disable(id);
        assert forall|t: int| #[trigger] off.enabled.contains(t) implies Self::is_source(t) by {
            assert(self.enabled.contains(t));
        }
    }

    /// A request from a source leaves the controller well-formed.
    pub proof fn lemma_raise_wf(self, s: int)
        requires
            self.wf(),
            Self::is_source(s),
        ensures
            self.after_raise(s).wf(),
    {
        let next = self.after_raise(s);
        assert forall|t: int| #[trigger] next.pending.contains(t) implies Self::is_source(t) by {
            assert(t == s || self.pending.contains(t));
        }
        assert forall|t: int| #[trigger] next.in_service.contains(t) implies Self::is_source(t)
            && !next.pending.contains(t) by {
            assert(self.in_service.contains(t));
        }
    }

    /// A claim leaves the controller well-formed.
    pub proof fn lemma_claim_wf(self)
        requires
            self.wf(),
        ensures
            self.after_claim().wf(),
            self.claim_id() == 0 || self.wins(self.claim_id()),
    {
        let id = self.claim_id();
        let next = self.after_claim();
        if id != 0 {
            assert(self.wins(id));
            assert forall|t: int| #[trigger] next.pending.contains(t) implies Self::is_source(
                t,
            ) by {
                assert(self.pending.contains(t));
            }
            assert forall|t: int| #[trigger] next.in_service.contains(t) implies Self::is_source(t)
                && !next.pending.contains(t) by {
                assert(t == id || self.in_service.contains(t));
            }
        }
    }

    /// A completion leaves the controller well-formed.
    pub proof fn lemma_complete_wf(self, id: int)
        requires
            self.wf(),
        ensures
            self.after_complete(id).wf(),
    {
        let next = self.after_complete(id);
        assert forall|t: int| #[trigger] next.in_service.contains(t) implies Self::is_source(t)
            && !next.pending.contains(t) by {
            assert(self.in_service.contains(t));
        }
    }

    /// With nothing claimable a claim returns 0 and changes nothing.
    pub proof fn lemma_nothing_claimable(self)
        requires
            forall|s: int| !self.claimable(s),
        ensures
            self.claim_id() == 0,
            self.after_claim() == self,
    {
    }

    /// A priority that was written is the priority that is read back, for
    /// every source and every level from 0 to 7, and the write disturbs no
    /// other entry of the table.
    pub proof fn lemma_priority_round_trip(self, id: int, level: u32)
        requires
            self.wf(),
            Self::is_source(id),
            level <= PLIC_MAX_PRIORITY,
        ensures
            self.after_set_priority(id, level).wf(),
            self.after_set_priority(id, level).priority[id] == level,
            forall|t: int|
                0 <= t <= COUNT_PLIC_INTR_SRCS && t != id ==> self.after_set_priority(
                    id,
                    level,
                ).priority[t] == self.priority[t],
    {
    }

    /// One claim and its completion take exactly the claimed source out of
    /// contention: afterwards a source is claimable if and only if it was
    /// claimable before and is not the one that was claimed.
    pub proof fn lemma_claim_complete_cycle(self)
        requires
            self.wf(),
            self.claim_id() != 0,
        ensures
            self.after_claim().after_complete(self.claim_id()).wf(),
            !self.after_claim().after_complete(self.claim_id()).in_service.contains(
                self.claim_id(),
            ),
            forall|s: int|
                self.after_claim().after_complete(self.claim_id()).claimable(s) <==> (
                #[trigger] self.claimable(s) && s != self.claim_id()),
    {
        self.lemma_claim_wf();
        self.after_claim().lemma_complete_wf(self.claim_id());
    }

    /// After a claim that returned a source and the completion of that same
    /// source, a second claim with no new request in between returns 0,
    /// provided that the claimed source was the only claimable one.
    pub proof fn lemma_claim_complete_then_idle(self)
        requires
            self.wf(),
            self.claim_id() != 0,
            forall|s: int| #[trigger] self.claimable(s) ==> s == self.claim_id(),
        ensures
            self.after_claim().after_complete(self.claim_id()).claim_id() == 0,
    {
        self.lemma_claim_complete_cycle();
        let next = self.after_claim().after_complete(self.claim_id());
        assert forall|s: int| !next.claimable(s) by {
            if next.claimable(s) {
                assert(self.claimable(s));
            }
        }
        next.lemma_nothing_claimable();
    }

    /// Requests change neither which sources are enabled nor the priorities
    /// nor the threshold.
    pub proof fn lemma_raises_keep_enabled(self, sources: Seq<int>)
        ensures
            self.after_raises(sources).enabled == self.enabled,
            self.after_raises(sources).priority == self.priority,
            self.after_raises(sources).threshold == self.threshold,
        decreases sources.len(),
    {
        if sources.len() > 0 {
            self.lemma_raises_keep_enabled(sources.drop_last());
        }
    }

    /// Once every source is disabled a claim returns 0, whatever is pending,
    /// and goes on returning 0 when further requests arrive.
    pub proof fn lemma_disable_all_then_idle(self, later: Seq<int>)
        ensures
            self.after_disable_all().claim_id() == 0,
            self.after_disable_all().after_raises(later).claim_id() == 0,
    {
        let off = self.after_disable_all();
        off.lemma_nothing_claimable();
        off.lemma_raises_keep_enabled(later);
        off.after_raises(later).lemma_nothing_claimable();
    }
}

/// The register block of the controller: the priority table, the pending
/// words, the enable words and the threshold of hart 0 in machine mode, and
/// behind the claim/complete register the record of what is in service.
pub struct PlicRegisterFile {
    src_priority: [u32; 53],
    pending: SourceMask,
    enable: SourceMask,
    in_service: SourceMask,
    threshold: u32,
}

impl View for PlicRegisterFile {
    type V = PlicState;

    closed spec fn view(&self) -> PlicState {
        PlicState {
            priority: self.src_priority@,
            pending: self.pending@,
            enabled: self.enable@,
            in_service: self.in_service@,
            threshold: self.threshold,
        }
    }
}

impl PlicRegisterFile {
    #[verifier::type_invariant]
    spec fn inv(&self) -> bool {
        self@.wf()
    }

    /// The register block as reset leaves it.
    pub fn new() -> (plic: PlicRegisterFile)
        ensures
            plic@ == PlicState::reset(),
            plic@.wf(),
    {
        let plic = PlicRegisterFile {
            src_priority: [0u32;53],
            pending: SourceMask::new(),
            enable: SourceMask::new(),
            in_service: SourceMask::new(),
            threshold: 0,
        };
        assert(plic@.priority =~= PlicState::reset().priority);
        plic
    }

    /// Writes `level` into the priority table entry of source `id`.
    ///
    /// Rejects an `id` that names no source, and a `level` above 7; a
    /// rejected write changes nothing.
    pub fn write_priority(&mut self, id: u32, level: u32) -> (done: Result<(), ConfigError>)
        ensures
            final(self)@.wf(),
            !PlicState::is_source(id as int) ==> done == Err::<(), ConfigError>(
                ConfigError::InvalidSource,
            ),
            PlicState::is_source(id as int) && level > PLIC_MAX_PRIORITY ==> done == Err::<
                (),
                ConfigError,
            >(ConfigError::InvalidPriority),
            PlicState::is_source(id as int) && level <= PLIC_MAX_PRIORITY ==> done is Ok,
            done is Ok ==> final(self)@ == old(self)@.after_set_priority(id as int, level),
            done is Err ==> final(self)@ == old(self)@,
    {
        proof {
            use_type_invariant(&*self);
        }
        if id < 1 || id > COUNT_PLIC_INTR_SRCS {
            return Err(ConfigError::InvalidSource);
        }
        if level > PLIC_MAX_PRIORITY {
            return Err(ConfigError::InvalidPriority);
        }
        proof {
            self@.lemma_configure_wf(id as int, level);
        }
        self.src_priority[id as usize] = level;
        Ok(())
    }

    /// Reads the priority table entry of source `id`; rejects an `id` that
    /// names no source.
    pub fn read_priority(&self, id: u32) -> (level: Result<u32, ConfigError>)
        ensures
            PlicState::is_source(id as int) ==> level == Ok::<u32, ConfigError>(
                self@.priority[id as int],
            ),
            !PlicState::is_source(id as int) ==> level == Err::<u32, ConfigError>(
                ConfigError::InvalidSource,
            ),
            self@.wf(),
    {
        proof {
            use_type_invariant(self);
        }
        if id < 1 || id > COUNT_PLIC_INTR_SRCS {
            return Err(ConfigError::InvalidSource);
        }
        Ok(self.src_priority[id as usize])
    }

    /// Reads the threshold register.
    pub fn read_threshold(&self) -> (level: u32)
        ensures
            level == self@.threshold,
            level <= PLIC_MAX_PRIORITY,
    {
        proof {
            use_type_invariant(self);
        }
        self.threshold
    }

    /// The two enable words.
    pub closed spec fn spec_enable_words(&self) -> SourceMask {
        self.enable
    }

    /// The two pending words.
    pub closed spec fn spec_pending_words(&self) -> SourceMask {
        self.pending
    }

    /// Reads the two enable words.
    #[verifier::when_used_as_spec(spec_enable_words)]
    pub fn enable_words(&self) -> (words: SourceMask)
        ensures
            words == self.spec_enable_words(),
            words@ == self@.enabled,
    {
        self.enable
    }

    /// Reads the two pending words.
    #[verifier::when_used_as_spec(spec_pending_words)]
    pub fn pending_words(&self) -> (words: SourceMask)
        ensures
            words == self.spec_pending_words(),
            words@ == self@.pending,
    {
        self.pending
    }

    /// Whether source `id` has been claimed and not yet completed.
    pub fn is_in_service(&self, id: u32) -> (busy: bool)
        ensures
            busy == self@.in_service.contains(id as int),
    {
        proof {
            use_type_invariant(self);
        }
        if id < 1 || id > COUNT_PLIC_INTR_SRCS {
            return false;
        }
        self.in_service.contains(id)
    }

    /// The device behind source `id` requests an interrupt. The request
    /// becomes pending unless the source is in service, in which case it is
    /// lost. Rejects an `id` that names no source.
    pub fn raise(&mut self, id: u32) -> (done: Result<(), ConfigError>)
        ensures
            final(self)@.wf(),
            PlicState::is_source(id as int) ==> done is Ok
                && final(self)@ == old(self)@.after_raise(id as int),
            !PlicState::is_source(id as int) ==> done == Err::<(), ConfigError>(
                ConfigError::InvalidSource,
            ) && final(self)@ == old(self)@,
    {
        proof {
            use_type_invariant(&*self);
        }
        if id < 1 || id > COUNT_PLIC_INTR_SRCS {
            return Err(ConfigError::InvalidSource);
        }
        if !self.in_service.contains(id) {
            proof {
                self@.lemma_raise_wf(id as int);
            }
            self.pending = self.pending.with(id);
        }
        Ok(())
    }

    /// Whether the controller signals an external interrupt to the hart.
    pub fn interrupt_pending(&self) -> (signalled: bool)
        ensures
            signalled == self@.interrupt_pending(),
    {
        proof {
            use_type_invariant(self);
        }
        let mut s: u32 = 1;
        while s <= COUNT_PLIC_INTR_SRCS
            invariant
                1 <= s <= COUNT_PLIC_INTR_SRCS + 1,
                self@.wf(),
                forall|t: int|
                    1 <= t < s ==> !(self@.claimable(t) && #[trigger] self@.priority[t]
                        > self@.threshold),
            decreases COUNT_PLIC_INTR_SRCS + 1 - s,
        {
            if self.pending.contains(s) && self.enable.contains(s) {
                let p = self.src_priority[s as usize];
                if p > 0 && p > self.threshold {
                    assert(self@.claimable(s as int) && self@.priority[s as int]
                        > self@.threshold);
                    return true;
                }
            }
            s += 1;
        }
        false
    }

    /// Reads the claim register: returns the identifier of the claimable
    /// source that outranks all others and takes it into service, or returns
    /// 0 and changes nothing when no source is claimable.
    pub fn claim(&mut self) -> (id: u32)
        ensures
            final(self)@.wf(),
            id == old(self)@.claim_id(),
            final(self)@ == old(self)@.after_claim(),
            id == 0 <==> forall|s: int| !old(self)@.claimable(s),
            id != 0 ==> old(self)@.wins(id as int),
    {
        proof {
            use_type_invariant(&*self);
        }
        let mut best: u32 = 0;
        let mut best_priority: u32 = 0;
        let mut s: u32 = 1;
        while s <= COUNT_PLIC_INTR_SRCS
            invariant
                1 <= s <= COUNT_PLIC_INTR_SRCS + 1,
                *self == *old(self),
                self@.wf(),
                best < s,
                best == 0 ==> best_priority == 0 && forall|t: int|
                    1 <= t < s ==> !#[trigger] self@.claimable(t),
                best != 0 ==> self@.claimable(best as int) && best_priority
                    == self@.priority[best as int] && forall|t: int|
                    1 <= t < s && #[trigger] self@.claimable(t) ==> self@.outranks(best as int, t),
            decreases COUNT_PLIC_INTR_SRCS + 1 - s,
        {
            if self.pending.contains(s) && self.enable.contains(s) {
                let p = self.src_priority[s as usize];
                if p > best_priority {
                    best = s;
                    best_priority = p;
                }
            }
            s += 1;
        }
        proof {
            let before = old(self)@;
            before.lemma_claim_wf();
            if best != 0 {
                assert(before.wins(best as int));
                let w = choose|x: int| before.wins(x);
                before.lemma_winner_unique(w, best as int);
            } else {
                assert forall|t: int| !before.claimable(t) by {
                    if before.claimable(t) {
                        assert(1 <= t < s);
                    }
                }
            }
        }
        if best != 0 {
            let pending = self.pending.without(best);
            let in_service = self.in_service.with(best);
            self.pending = pending;
            self.in_service = in_service;
        }
        best
    }

    /// Writes `id` to the claim register: source `id` leaves service and may
    /// be claimed again once it is pending. The write has no other effect; in
    /// particular it does not release a source other than `id`.
    pub fn complete(&mut self, id: u32)
        ensures
            final(self)@.wf(),
            final(self)@ == old(self)@.after_complete(id as int),
    {
        proof {
            use_type_invariant(&*self);
        }
        proof {
            self@.lemma_complete_wf(id as int);
        }
        if 1 <= id && id <= COUNT_PLIC_INTR_SRCS {
            self.in_service = self.in_service.without(id);
        } else {
            assert(self@.in_service.remove(id as int) =~= self@.in_service);
        }
    }
}

/// Sets the threshold of the hart: from now on only sources with a priority
/// strictly above `pthreshold` interrupt it.
pub fn plic_set_priority_threshold(plic: &mut PlicRegisterFile, pthreshold: PlicIntrPriorityLevels)
    ensures
        final(plic)@.wf(),
        final(plic)@ == old(plic)@.after_set_threshold(pthreshold.spec_level() as u32),
{
    proof {
        use_type_invariant(&*plic);
    }
    let level = pthreshold.level();
    proof {
        plic@.lemma_configure_wf(1, level);
    }
    plic.threshold = level;
}

/// Lets source `src` interrupt the hart by setting its bit in the enable
/// words. Rejects the selector `all`, and then changes nothing.
pub fn plic_enable_src_to_interrupt(plic: &mut PlicRegisterFile, src: PlicIntrSources) -> (done:
    Result<(), ConfigError>)
    ensures
        final(plic)@.wf(),
        src.is_source() ==> done is Ok && final(plic)@ == old(plic)@.after_enable(
            src.spec_id() as int,
        ),
        !src.is_source() ==> done == Err::<(), ConfigError>(ConfigError::InvalidSource)
            && final(plic)@ == old(plic)@,
{
    proof {
        use_type_invariant(&*plic);
    }
    let id = src.id();
    if id > COUNT_PLIC_INTR_SRCS {
        return Err(ConfigError::InvalidSource);
    }
    proof {
        plic@.lemma_configure_wf(id as int, 0);
    }
    plic.enable = plic.enable.with(id);
    Ok(())
}

/// Writes priority `p` into the table entry of source `src`. Rejects the
/// selector `all`, and then changes nothing.
pub fn plic_set_intr_priority_for_src(
    plic: &mut PlicRegisterFile,
    src: PlicIntrSources,
    p: PlicIntrPriorityLevels,
) -> (done: Result<(), ConfigError>)
    ensures
        final(plic)@.wf(),
        src.is_source() ==> done is Ok && final(plic)@ == old(plic)@.after_set_priority(
            src.spec_id() as int,
            p.spec_level() as u32,
        ),
        !src.is_source() ==> done == Err::<(), ConfigError>(ConfigError::InvalidSource)
            && final(plic)@ == old(plic)@,
{
    plic.write_priority(src.id(), p.level())
}

/// Stops source `src` from interrupting the hart by clearing its bit in the
/// enable words. With the selector `all` both enable words are cleared.
pub fn plic_disable_src_to_interrupt(plic: &mut PlicRegisterFile, src: PlicIntrSources)
    ensures
        final(plic)@.wf(),
        src.is_source() ==> final(plic)@ == old(plic)@.after_disable(src.spec_id() as int),
        !src.is_source() ==> final(plic)@ == old(plic)@.after_disable_all()
            && final(plic).enable_words() == (SourceMask { word1: 0, word2: 0 }),
{
    proof {
        use_type_invariant(&*plic);
    }
    let id = src.id();
    proof {
        plic@.lemma_configure_wf(if src.is_source() { id as int } else { 1 }, 0);
    }
    if id > COUNT_PLIC_INTR_SRCS {
        plic.enable = SourceMask::new();
    } else {
        plic.enable = plic.enable.without(id);
    }
}

} // verus!

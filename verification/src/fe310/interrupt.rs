//! Machine-mode traps: decoding the cause, installing the trap vector, and
//! serving the external interrupt through the claim/complete protocol of the
//! interrupt controller.

use crate::bits::{bit, set_bit, test_bit, with_bit};
use crate::error::ConfigError;
use crate::fe310::plic::{PlicRegisterFile, PlicState};
use crate::fe310::tx_engine::{TxEngineState, UartTxEngine};
use crate::fe310::uart::{UartMmapRegs, UartState, RXWM_BIT, TXWM_BIT};
use vstd::prelude::*;

verus! {

/// The bit of `mcause` that tells an interrupt from an exception.
pub const TRAP_CAUSE_INTR_BIT_MASK: u32 = 0x8000_0000;

/// The bits of `mcause` that hold the exception or interrupt code.
pub const INTRPT_EXCEP_CODE_MASK: u32 = 0x0000_000F;

/// Bit 3 of `mstatus`: machine-mode interrupts are enabled globally.
pub const MSTATUS_MIE_BIT: u8 = 3;

/// Bit 7 of `mie`: the machine timer interrupt is enabled.
pub const MIE_MTIE_BIT: u8 = 7;

/// Bit 11 of `mie`: the machine external interrupt is enabled.
pub const MIE_MEIE_BIT: u8 = 11;

/// The identifier under which the interrupt controller reports UART 0.
pub const UART0_SOURCE_ID: u32 = 3;

/// The cause of one trap, as decoded from `mcause`. It lives for one
/// dispatch.
#[derive(Clone, Copy, Debug, PartialEq, Eq, Structural)]
pub struct TrapCause {
    /// Whether the trap is an asynchronous interrupt rather than a
    /// synchronous exception.
    pub is_interrupt: bool,
    /// The four-bit code of the interrupt or exception.
    pub code: u8,
}

/// What a trap cause stands for.
#[derive(Clone, Copy, Debug, PartialEq, Eq, Structural)]
pub enum TrapKind {
    /// Interrupt 3.
    MachineSoftwareInterrupt,
    /// Interrupt 7.
    MachineTimerInterrupt,
    /// Interrupt 11: the interrupt controller has a source to claim.
    MachineExternalInterrupt,
    /// Exception 0.
    InstructionAddressMisaligned,
    /// Exception 1.
    InstructionAccessFault,
    /// Exception 2.
    IllegalInstruction,
    /// Exception 3.
    Breakpoint,
    /// Exception 4.
    LoadAddressMisaligned,
    /// Exception 5.
    LoadAccessFault,
    /// Exception 6.
    StoreAddressMisaligned,
    /// Exception 7.
    StoreAccessFault,
    /// Exception 8.
    EnvironmentCallFromUMode,
    /// Exception 11.
    EnvironmentCallFromMMode,
    /// Any other code: a reserved cause, which is fatal.
    Reserved,
}

impl TrapCause {
    /// The cause that a value of `mcause` encodes: bit 31 tells interrupts
    /// from exceptions, the low four bits are the code.
    pub open spec fn spec_decode(mcause: u32) -> TrapCause {
        TrapCause { is_interrupt: mcause >= TRAP_CAUSE_INTR_BIT_MASK, code: (mcause % 16) as u8 }
    }

    /// Decodes a value read from `mcause`.
    pub fn decode(mcause: u32) -> (cause: TrapCause)
        ensures
            cause == Self::spec_decode(mcause),
            cause.is_interrupt == bit(mcause, 31),
            cause.code < 16,
    {
        assert((mcause & 0x8000_0000 != 0) == (mcause >= 0x8000_0000)) by (bit_vector);
        assert(((mcause >> 31) & 1 == 1) == (mcause >= 0x8000_0000)) by (bit_vector);
        assert(mcause & 0xF == mcause % 16) by (bit_vector);
        TrapCause {
            is_interrupt: mcause & TRAP_CAUSE_INTR_BIT_MASK != 0,
            code: (mcause & INTRPT_EXCEP_CODE_MASK) as u8,
        }
    }

    /// What the cause stands for.
    pub open spec fn spec_kind(self) -> TrapKind {
        if self.is_interrupt {
            if self.code == 3 {
                TrapKind::MachineSoftwareInterrupt
            } else if self.code == 7 {
                TrapKind::MachineTimerInterrupt
            } else if self.code == 11 {
                TrapKind::MachineExternalInterrupt
            } else {
                TrapKind::Reserved
            }
        } else {
            if self.code == 0 {
                TrapKind::InstructionAddressMisaligned
            } else if self.code == 1 {
                TrapKind::InstructionAccessFault
            } else if self.code == 2 {
                TrapKind::IllegalInstruction
            } else if self.code == 3 {
                TrapKind::Breakpoint
            } else if self.code == 4 {
                TrapKind::LoadAddressMisaligned
            } else if self.code == 5 {
                TrapKind::LoadAccessFault
            } else if self.code == 6 {
                TrapKind::StoreAddressMisaligned
            } else if self.code == 7 {
                TrapKind::StoreAccessFault
            } else if self.code == 8 {
                TrapKind::EnvironmentCallFromUMode
            } else if self.code == 11 {
                TrapKind::EnvironmentCallFromMMode
            } else {
                TrapKind::Reserved
            }
        }
    }

    /// Classifies the cause.
    pub fn kind(&self) -> (kind: TrapKind)
        ensures
            kind == self.spec_kind(),
    {
        if self.is_interrupt {
            match self.code {
                3 => TrapKind::MachineSoftwareInterrupt,
                7 => TrapKind::MachineTimerInterrupt,
                11 => TrapKind::MachineExternalInterrupt,
                _ => TrapKind::Reserved,
            }
        } else {
            match self.code {
                0 => TrapKind::InstructionAddressMisaligned,
                1 => TrapKind::InstructionAccessFault,
                2 => TrapKind::IllegalInstruction,
                3 => TrapKind::Breakpoint,
                4 => TrapKind::LoadAddressMisaligned,
                5 => TrapKind::LoadAccessFault,
                6 => TrapKind::StoreAddressMisaligned,
                7 => TrapKind::StoreAccessFault,
                8 => TrapKind::EnvironmentCallFromUMode,
                11 => TrapKind::EnvironmentCallFromMMode,
                _ => TrapKind::Reserved,
            }
        }
    }
}

/// Why UART 0 interrupts, as read from its `ip` register.
#[derive(Clone, Copy, Debug, PartialEq, Eq, Structural)]
pub enum UartEvent {
    /// The transmit FIFO has drained below its watermark.
    TxWatermark,
    /// The receive FIFO has filled above its watermark.
    RxWatermark,
    /// Neither watermark condition holds.
    Nothing,
}

/// The event that a value of `ip` reports. The transmit watermark is looked
/// at first: when both conditions hold, the transmit side is served.
pub open spec fn spec_uart_event(ip: u32) -> UartEvent {
    if bit(ip, TXWM_BIT as int) {
        UartEvent::TxWatermark
    } else if bit(ip, RXWM_BIT as int) {
        UartEvent::RxWatermark
    } else {
        UartEvent::Nothing
    }
}

/// Tells from a value read from `ip` which side of the UART to serve.
pub fn uart_event(ip: u32) -> (event: UartEvent)
    ensures
        event == spec_uart_event(ip),
{
    if test_bit(ip, TXWM_BIT) {
        UartEvent::TxWatermark
    } else if test_bit(ip, RXWM_BIT) {
        UartEvent::RxWatermark
    } else {
        UartEvent::Nothing
    }
}

/// The bookkeeping of the receive interrupt: how many receive watermark
/// interrupts were served, and the address at which the next received word
/// belongs.
#[derive(Clone, Copy, Debug, PartialEq, Eq, Structural)]
pub struct RxCounter {
    /// The number of receive watermark interrupts served.
    pub count: u32,
    /// The address for the next received word; it moves on by four bytes
    /// with every interrupt.
    pub cur_addr: u32,
}

impl RxCounter {
    /// A counter at 0 whose words start at `base`.
    pub fn new(base: u32) -> (rx: RxCounter)
        ensures
            rx == (RxCounter { count: 0, cur_addr: base }),
    {
        RxCounter { count: 0, cur_addr: base }
    }

    /// Whether one more interrupt can be counted without overflow.
    pub open spec fn spec_has_room(&self) -> bool {
        self.count < u32::MAX && self.cur_addr <= u32::MAX - 4
    }

    /// The counter after one more receive watermark interrupt.
    pub open spec fn after_record(self) -> RxCounter {
        RxCounter { count: (self.count + 1) as u32, cur_addr: (self.cur_addr + 4) as u32 }
    }

    /// Whether one more interrupt can be counted without overflow.
    #[verifier::when_used_as_spec(spec_has_room)]
    pub fn has_room(&self) -> (room: bool)
        ensures
            room == self.spec_has_room(),
    {
        self.count < u32::MAX && self.cur_addr <= u32::MAX - 4
    }

    /// Counts one receive watermark interrupt.
    pub fn record(&mut self)
        requires
            old(self).has_room(),
        ensures
            *final(self) == old(self).after_record(),
            final(self).count == old(self).count + 1,
            final(self).cur_addr == old(self).cur_addr + 4,
    {
        self.count = self.count + 1;
        self.cur_addr = self.cur_addr + 4;
    }
}

/// What serving one external interrupt came to.
#[derive(Clone, Copy, Debug, PartialEq, Eq, Structural)]
pub enum ExternalOutcome {
    /// The claim returned 0: no source was waiting. Nothing was done and
    /// nothing was completed.
    Spurious,
    /// UART 0 was claimed for its transmit watermark; the engine pushed a
    /// burst.
    TxRefilled,
    /// UART 0 was claimed for its receive watermark; the interrupt was
    /// counted.
    RxCounted,
    /// UART 0 was claimed, but neither of its watermark conditions held any
    /// more.
    NothingPending,
    /// The source with this identifier was claimed. It has no handler, and
    /// was completed without further service.
    NoHandler(u32),
}

/// What the hart does once the trap handler is done.
#[derive(Clone, Copy, Debug, PartialEq, Eq, Structural)]
pub enum TrapOutcome {
    /// A reserved cause: the system halts.
    Halt,
    /// An exception, a software interrupt or a timer interrupt. It is
    /// classified and otherwise ignored; control returns to where the trap
    /// struck.
    Resume(TrapKind),
    /// An external interrupt, served as told; control returns to where the
    /// trap struck.
    External(ExternalOutcome),
}

/// What serving an external interrupt comes to, given the identifier that the
/// claim returned and the value of UART 0's `ip` register.
pub open spec fn spec_external_outcome(id: int, ip: u32) -> ExternalOutcome {
    if id == 0 {
        ExternalOutcome::Spurious
    } else if id == UART0_SOURCE_ID {
        match spec_uart_event(ip) {
            UartEvent::TxWatermark => ExternalOutcome::TxRefilled,
            UartEvent::RxWatermark => ExternalOutcome::RxCounted,
            UartEvent::Nothing => ExternalOutcome::NothingPending,
        }
    } else {
        ExternalOutcome::NoHandler(id as u32)
    }
}

/// Tells what serving an external interrupt comes to, from the identifier
/// that the claim returned and, where UART 0 was claimed, the value read from
/// its `ip` register. For any other identifier `ip` plays no part.
pub fn external_outcome(id: u32, ip: u32) -> (outcome: ExternalOutcome)
    ensures
        outcome == spec_external_outcome(id as int, ip),
        id != UART0_SOURCE_ID ==> forall|other: u32|
            outcome == #[trigger] spec_external_outcome(id as int, other),
{
    if id == 0 {
        ExternalOutcome::Spurious
    } else if id == UART0_SOURCE_ID {
        match uart_event(ip) {
            UartEvent::TxWatermark => ExternalOutcome::TxRefilled,
            UartEvent::RxWatermark => ExternalOutcome::RxCounted,
            UartEvent::Nothing => ExternalOutcome::NothingPending,
        }
    } else {
        ExternalOutcome::NoHandler(id)
    }
}

/// The state that a trap can touch, as mathematics: the interrupt
/// controller, UART 0, the transmit engine and the receive bookkeeping.
pub struct InterruptPath {
    pub plic: PlicState,
    pub uart0: UartState,
    pub engine: TxEngineState,
    pub rx: RxCounter,
}

/// The value of `mcause` for the machine external interrupt.
pub const MCAUSE_EXTERNAL: u32 = 0x8000_000B;

impl InterruptPath {
    /// The state made of the views of the four pieces.
    pub open spec fn of(
        plic: PlicRegisterFile,
        uart0: UartMmapRegs,
        engine: UartTxEngine,
        rx: RxCounter,
    ) -> InterruptPath {
        InterruptPath { plic: plic@, uart0: uart0@, engine: engine@, rx }
    }

    /// What holds of the state between traps.
    pub open spec fn wf(self) -> bool {
        self.plic.wf() && self.uart0.wf() && self.engine.wf()
    }

    /// What serving an external interrupt comes to in this state.
    pub open spec fn external_outcome(self) -> ExternalOutcome {
        spec_external_outcome(self.plic.claim_id(), self.uart0.ip())
    }

    /// The state after an external interrupt is served. Whatever the claim
    /// returns is completed, once and under the identifier claimed, unless it
    /// is 0. A transmit watermark on UART 0 makes the engine push its next
    /// burst; a receive watermark is counted; nothing else changes.
    pub open spec fn after_external(self) -> InterruptPath {
        let id = self.plic.claim_id();
        let plic = if id == 0 {
            self.plic
        } else {
            self.plic.after_claim().after_complete(id)
        };
        match self.external_outcome() {
            ExternalOutcome::TxRefilled => InterruptPath {
                plic,
                uart0: self.uart0.after_txdata_writes(self.engine.next_burst()),
                engine: self.engine.after_refill(),
                rx: self.rx,
            },
            ExternalOutcome::RxCounted => InterruptPath {
                plic,
                rx: self.rx.after_record(),
                ..self
            },
            _ => InterruptPath { plic, ..self },
        }
    }

    /// What a trap with cause register `mcause` comes to in this state.
    pub open spec fn trap_outcome(self, mcause: u32) -> TrapOutcome {
        match TrapCause::spec_decode(mcause).spec_kind() {
            TrapKind::Reserved => TrapOutcome::Halt,
            TrapKind::MachineExternalInterrupt => TrapOutcome::External(self.external_outcome()),
            kind => TrapOutcome::Resume(kind),
        }
    }

    /// The state after a trap with cause register `mcause`: only the
    /// external interrupt changes anything.
    pub open spec fn after_trap(self, mcause: u32) -> InterruptPath {
        if TrapCause::spec_decode(mcause).spec_kind() == TrapKind::MachineExternalInterrupt {
            self.after_external()
        } else {
            self
        }
    }

    /// No trap leaves a source in service: whatever the handler claims it
    /// completes before it returns, so that the same sources are in service
    /// after the trap as before it, and the state stays well-formed.
    pub proof fn lemma_claim_is_completed(self, mcause: u32)
        requires
            self.wf(),
        ensures
            self.after_trap(mcause).plic.in_service == self.plic.in_service,
            self.after_trap(mcause).wf(),
    {
        let id = self.plic.claim_id();
        self.plic.lemma_claim_wf();
        self.plic.after_claim().lemma_complete_wf(id);
        self.engine.lemma_refill_in_bounds();
        self.uart0.lemma_writes_frame(self.engine.next_burst());
        if id != 0 {
            assert(self.plic.wins(id));
            assert(!self.plic.in_service.contains(id));
            assert(self.plic.after_claim().after_complete(id).in_service
                =~= self.plic.in_service);
        }
    }

    /// Serving the transmit watermark of UART 0: when UART 0 is the only
    /// claimable source and its transmit watermark condition holds, the
    /// external interrupt makes the engine push exactly its next burst and
    /// advance its cursor past it, and a claim right after the trap, with no
    /// new request in between, returns 0.
    pub proof fn lemma_tx_watermark_served(self)
        requires
            self.wf(),
            self.plic.claimable(UART0_SOURCE_ID as int),
            forall|s: int| #[trigger] self.plic.claimable(s) ==> s == UART0_SOURCE_ID,
            self.uart0.tx_watermark_pending(),
        ensures
            self.plic.claim_id() == UART0_SOURCE_ID,
            self.trap_outcome(MCAUSE_EXTERNAL) == TrapOutcome::External(
                ExternalOutcome::TxRefilled,
            ),
            self.after_trap(MCAUSE_EXTERNAL).engine == self.engine.after_refill(),
            self.after_trap(MCAUSE_EXTERNAL).uart0 == self.uart0.after_txdata_writes(
                self.engine.next_burst(),
            ),
            self.after_trap(MCAUSE_EXTERNAL).rx == self.rx,
            self.after_trap(MCAUSE_EXTERNAL).plic.claim_id() == 0,
    {
        let uart0 = UART0_SOURCE_ID as int;
        assert(self.plic.wins(uart0));
        let w = choose|s: int| self.plic.wins(s);
        self.plic.lemma_winner_unique(w, uart0);
        self.plic.lemma_claim_complete_then_idle();
        crate::fe310::uart::lemma_ip_bits(self.uart0);
    }
}

/// Serves one machine external interrupt.
///
/// Claims a source from the interrupt controller. A claim of 0 is a spurious
/// entry and ends the service at once. For UART 0 the pending register of the
/// UART decides: on a transmit watermark the engine refills the FIFO, on a
/// receive watermark the interrupt is counted. Any other source has no
/// handler. Whatever was claimed is then completed, once, with the very
/// identifier that the claim returned.
pub fn process_mexternal_interrupt(
    plic: &mut PlicRegisterFile,
    uart0: &mut UartMmapRegs,
    engine: &mut UartTxEngine,
    rx: &mut RxCounter,
) -> (outcome: ExternalOutcome)
    requires
        InterruptPath::of(*old(plic), *old(uart0), *old(engine), *old(rx)).external_outcome()
            == ExternalOutcome::RxCounted ==> old(rx).has_room(),
    ensures
        outcome == InterruptPath::of(
            *old(plic),
            *old(uart0),
            *old(engine),
            *old(rx),
        ).external_outcome(),
        InterruptPath::of(*final(plic), *final(uart0), *final(engine), *final(rx))
            == InterruptPath::of(*old(plic), *old(uart0), *old(engine), *old(rx)).after_external(),
        final(plic)@.wf(),
{
    let intr_id = plic.claim();
    let pending = if intr_id == UART0_SOURCE_ID {
        uart0.ip()
    } else {
        0
    };
    let outcome = external_outcome(intr_id, pending);
    match outcome {
        ExternalOutcome::Spurious => {
            return outcome;
        },
        ExternalOutcome::TxRefilled => {
            engine.refill(uart0);
        },
        ExternalOutcome::RxCounted => {
            rx.record();
        },
        _ => {},
    }
    plic.complete(intr_id);
    outcome
}

/// The machine-mode trap handler, entered once for every trap with the value
/// of `mcause`.
///
/// A reserved cause is fatal. The external interrupt is served through the
/// interrupt controller. Every other cause is classified and otherwise
/// ignored. Only the external interrupt touches the interrupt controller, the
/// UART, the engine or the receive counter.
pub fn m_trap_handler(
    mcause: u32,
    plic: &mut PlicRegisterFile,
    uart0: &mut UartMmapRegs,
    engine: &mut UartTxEngine,
    rx: &mut RxCounter,
) -> (outcome: TrapOutcome)
    requires
        InterruptPath::of(*old(plic), *old(uart0), *old(engine), *old(rx)).trap_outcome(mcause)
            == TrapOutcome::External(ExternalOutcome::RxCounted) ==> old(rx).has_room(),
    ensures
        outcome == InterruptPath::of(*old(plic), *old(uart0), *old(engine), *old(rx)).trap_outcome(
            mcause,
        ),
        InterruptPath::of(*final(plic), *final(uart0), *final(engine), *final(rx))
            == InterruptPath::of(*old(plic), *old(uart0), *old(engine), *old(rx)).after_trap(
            mcause,
        ),
{
    let cause = TrapCause::decode(mcause);
    match cause.kind() {
        TrapKind::Reserved => TrapOutcome::Halt,
        TrapKind::MachineExternalInterrupt => TrapOutcome::External(
            process_mexternal_interrupt(plic, uart0, engine, rx),
        ),
        kind => TrapOutcome::Resume(kind),
    }
}

/// The control registers of the hart that matter for taking traps, as
/// mathematics. The trap vector and the stack pointer hold nothing usable
/// until they have been written.
pub struct TrapSetupState {
    /// The trap vector `mtvec`, once installed.
    pub mtvec: Option<u32>,
    /// The stack pointer, once set.
    pub sp: Option<u32>,
    /// The status register `mstatus`.
    pub mstatus: u32,
    /// The interrupt-enable register `mie`.
    pub mie: u32,
}

impl TrapSetupState {
    /// The state after reset: no vector, no stack, every enable bit clear.
    pub open spec fn reset() -> TrapSetupState {
        TrapSetupState { mtvec: None, sp: None, mstatus: 0, mie: 0 }
    }

    /// Whether a trap could be taken safely: the vector is installed and the
    /// stack is valid.
    pub open spec fn ready(self) -> bool {
        self.mtvec is Some && self.sp is Some
    }

    /// Whether machine-mode interrupts are enabled globally.
    pub open spec fn interrupts_enabled(self) -> bool {
        bit(self.mstatus, MSTATUS_MIE_BIT as int)
    }

    /// Whether the machine external interrupt is enabled.
    pub open spec fn external_enabled(self) -> bool {
        bit(self.mie, MIE_MEIE_BIT as int)
    }

    /// The ordering rule of the boot sequence: no enable bit is set unless
    /// the vector is installed and the stack is valid.
    pub open spec fn wf(self) -> bool {
        (self.interrupts_enabled() || self.external_enabled()) ==> self.ready()
    }

    /// The state after `entry` is written to `mtvec`.
    pub open spec fn after_set_trap_handler(self, entry: u32) -> TrapSetupState {
        TrapSetupState { mtvec: Some(entry), ..self }
    }

    /// The state after the stack pointer is set to `top`.
    pub open spec fn after_set_stack(self, top: u32) -> TrapSetupState {
        TrapSetupState { sp: Some(top), ..self }
    }

    /// The state after machine-mode interrupts are enabled globally.
    pub open spec fn after_enable_m_interrupt(self) -> TrapSetupState {
        TrapSetupState { mstatus: with_bit(self.mstatus, MSTATUS_MIE_BIT), ..self }
    }

    /// The state after the machine external interrupt is enabled.
    pub open spec fn after_enable_m_external_interrupt(self) -> TrapSetupState {
        TrapSetupState { mie: with_bit(self.mie, MIE_MEIE_BIT), ..self }
    }

    /// The state after every interrupt of `mie` is disabled.
    pub open spec fn after_clear_external_interrupt(self) -> TrapSetupState {
        TrapSetupState { mie: 0, ..self }
    }
}

/// Installs the trap vector and unmasks interrupts, once, at boot. It keeps
/// the values that the boot code is to write to the control registers of the
/// hart, and sees to it that they are written in a safe order.
pub struct TrapVectorInstaller {
    mtvec: Option<u32>,
    sp: Option<u32>,
    mstatus: u32,
    mie: u32,
}

impl View for TrapVectorInstaller {
    type V = TrapSetupState;

    closed spec fn view(&self) -> TrapSetupState {
        TrapSetupState { mtvec: self.mtvec, sp: self.sp, mstatus: self.mstatus, mie: self.mie }
    }
}

impl TrapVectorInstaller {
    #[verifier::type_invariant]
    spec fn inv(&self) -> bool {
        self@.wf()
    }

    /// The hart as reset leaves it.
    pub fn new() -> (hart: TrapVectorInstaller)
        ensures
            hart@ == TrapSetupState::reset(),
            hart@.wf(),
    {
        proof {
            crate::bits::lemma_zero_bits();
        }
        TrapVectorInstaller { mtvec: None, sp: None, mstatus: 0, mie: 0 }
    }

    /// The whole boot sequence in its order: the vector, the stack, then the
    /// global interrupt enable and the external interrupt enable.
    pub fn install(entry: u32, stack_top: u32) -> (hart: TrapVectorInstaller)
        ensures
            hart@ == TrapSetupState::reset().after_set_trap_handler(entry).after_set_stack(
                stack_top,
            ).after_enable_m_interrupt().after_enable_m_external_interrupt(),
            hart@.wf(),
            hart@.ready(),
            hart@.interrupts_enabled(),
            hart@.external_enabled(),
    {
        let mut hart = TrapVectorInstaller::new();
        set_trap_handler(&mut hart, entry);
        set_stack(&mut hart, stack_top);
        let _ = enable_m_interrupt(&mut hart);
        let _ = enable_m_external_interrupt(&mut hart);
        hart
    }

    /// The value for `mtvec`, once a handler is installed.
    pub fn mtvec(&self) -> (entry: Option<u32>)
        ensures
            entry == self@.mtvec,
    {
        self.mtvec
    }

    /// The value for the stack pointer, once it is set.
    pub fn sp(&self) -> (top: Option<u32>)
        ensures
            top == self@.sp,
    {
        self.sp
    }

    /// The value for `mstatus`.
    pub fn mstatus(&self) -> (word: u32)
        ensures
            word == self@.mstatus,
            self@.wf(),
    {
        proof {
            use_type_invariant(self);
        }
        self.mstatus
    }

    /// The value for `mie`.
    pub fn mie(&self) -> (word: u32)
        ensures
            word == self@.mie,
            self@.wf(),
    {
        proof {
            use_type_invariant(self);
        }
        self.mie
    }
}

/// Installs the trap handler: `entry`, the address of the handler's first
/// instruction, becomes the trap vector.
pub fn set_trap_handler(hart: &mut TrapVectorInstaller, entry: u32)
    ensures
        final(hart)@ == old(hart)@.after_set_trap_handler(entry),
        final(hart)@.wf(),
{
    proof {
        use_type_invariant(&*hart);
    }
    hart.mtvec = Some(entry);
}

/// Sets the stack pointer to `top`.
pub fn set_stack(hart: &mut TrapVectorInstaller, top: u32)
    ensures
        final(hart)@ == old(hart)@.after_set_stack(top),
        final(hart)@.wf(),
{
    proof {
        use_type_invariant(&*hart);
    }
    hart.sp = Some(top);
}

/// Enables machine-mode interrupts globally by setting bit 3 of `mstatus`.
/// Refuses, and changes nothing, as long as the trap vector is not installed
/// or the stack is not set.
pub fn enable_m_interrupt(hart: &mut TrapVectorInstaller) -> (done: Result<(), ConfigError>)
    ensures
        final(hart)@.wf(),
        old(hart)@.ready() ==> done is Ok && final(hart)@ == old(hart)@.after_enable_m_interrupt()
            && final(hart)@.interrupts_enabled(),
        !old(hart)@.ready() ==> done == Err::<(), ConfigError>(
            ConfigError::TrapVectorNotInstalled,
        ) && final(hart)@ == old(hart)@,
{
    proof {
        use_type_invariant(&*hart);
    }
    if hart.mtvec.is_none() || hart.sp.is_none() {
        return Err(ConfigError::TrapVectorNotInstalled);
    }
    hart.mstatus = set_bit(hart.mstatus, MSTATUS_MIE_BIT);
    Ok(())
}

/// Enables the machine external interrupt by setting bit 11 of `mie`.
/// Refuses, and changes nothing, as long as the trap vector is not installed
/// or the stack is not set.
pub fn enable_m_external_interrupt(hart: &mut TrapVectorInstaller) -> (done: Result<
    (),
    ConfigError,
>)
    ensures
        final(hart)@.wf(),
        old(hart)@.ready() ==> done is Ok && final(hart)@ == old(
            hart,
        )@.after_enable_m_external_interrupt() && final(hart)@.external_enabled(),
        !old(hart)@.ready() ==> done == Err::<(), ConfigError>(
            ConfigError::TrapVectorNotInstalled,
        ) && final(hart)@ == old(hart)@,
{
    proof {
        use_type_invariant(&*hart);
    }
    if hart.mtvec.is_none() || hart.sp.is_none() {
        return Err(ConfigError::TrapVectorNotInstalled);
    }
    hart.mie = set_bit(hart.mie, MIE_MEIE_BIT);
    Ok(())
}

/// Disables every interrupt of `mie`, the external interrupt among them.
pub fn clear_external_interrupt(hart: &mut TrapVectorInstaller)
    ensures
        final(hart)@ == old(hart)@.after_clear_external_interrupt(),
        final(hart)@.wf(),
        !final(hart)@.external_enabled(),
{
    proof {
        use_type_invariant(&*hart);
        crate::bits::lemma_zero_bits();
    }
    hart.mie = 0;
}

} // verus!

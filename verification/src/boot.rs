//! Bringing the board up for interrupt-driven transmission on UART 0.

use crate::bits::{bit, with_bit, without_bit};
use crate::dio::{DioFuncMode, DioPin};
use crate::fe310::fifo::UART_FIFO_DEPTH;
use crate::fe310::gpio::GpioMmapRegs;
use crate::fe310::interrupt::{
    enable_m_external_interrupt, enable_m_interrupt, m_trap_handler, set_stack, set_trap_handler,
    ExternalOutcome, InterruptPath, RxCounter, TrapOutcome, TrapSetupState, TrapVectorInstaller,
    UART0_SOURCE_ID,
};
use crate::fe310::plic::{
    plic_disable_src_to_interrupt, plic_enable_src_to_interrupt, plic_set_intr_priority_for_src,
    plic_set_priority_threshold, PlicIntrPriorityLevels, PlicIntrSources, PlicRegisterFile,
    PlicState,
};
use crate::fe310::tx_engine::{welcome_state, UartTxEngine};
use crate::fe310::uart::{
    lemma_with_watermark, watermark_of, UartRegisterFile, UartState, TXWM_BIT,
};
use crate::serial::{
    Configure, EnableTx, Uart, UartBitCount, UartConfig, UartFifoDepth,
};
use vstd::prelude::*;

verus! {

/// The pin that carries the transmit line of UART 0.
pub const UART0_TX_GPIO17: u8 = 17;

/// The address of the words that the receive interrupt keeps its count in.
pub const RX_BOOKKEEPING_ADDR: u32 = 0x8001_0000;

/// The board: the hart's trap setup, the interrupt controller, the pins, both
/// UARTs, the transmit engine and the bookkeeping of the receive interrupt.
pub struct Board {
    pub hart: TrapVectorInstaller,
    pub plic: PlicRegisterFile,
    pub gpio: GpioMmapRegs,
    pub uarts: UartRegisterFile,
    pub engine: UartTxEngine,
    pub rx: RxCounter,
}

/// Burns time: counts down from `v` to 0.
pub fn delay(v: u32) {
    let mut d: u32 = v;
    while d > 0
        decreases d,
    {
        d -= 1;
    }
}

/// How UART 0 is set up for the greeting: 115200 baud, two stop bits, and the
/// watermark at its lowest, so that the interrupt fires once the FIFO is
/// empty and a whole burst is sure to fit.
pub open spec fn greeting_config() -> UartConfig {
    UartConfig {
        baud: 115200,
        start_bits: UartBitCount::Two,
        stop_bits: UartBitCount::Two,
        fifo: UartFifoDepth::Min,
    }
}

/// The interrupt controller as the boot sequence leaves it: UART 0 is the
/// only source enabled, at priority 4, and the threshold is 3.
pub open spec fn greeting_plic() -> PlicState {
    PlicState::reset().after_disable_all().after_set_priority(
        UART0_SOURCE_ID as int,
        4,
    ).after_set_threshold(3).after_enable(UART0_SOURCE_ID as int)
}

/// The pins as the boot sequence leaves them: pin 17 belongs to the first of
/// its two peripherals, which is UART 0.
pub open spec fn greeting_gpio() -> GpioMmapRegs {
    GpioMmapRegs {
        iof_en: with_bit(0, UART0_TX_GPIO17),
        iof_sel: without_bit(0, UART0_TX_GPIO17),
        ..GpioMmapRegs::reset()
    }
}

/// UART 0 as the boot sequence leaves it: configured, its transmit watermark
/// interrupt enabled, its transmitter on, and nothing in its FIFOs.
pub open spec fn greeting_uart() -> UartState {
    greeting_config().applied(UartState::reset()).after_enable_interrupt(
        TXWM_BIT,
    ).after_set_tx_enable(true)
}

impl Board {
    /// Brings the board up. In this order: installs the trap vector `entry`
    /// and the stack `stack_top`, enables machine interrupts and the external
    /// interrupt, disables every source of the interrupt controller, gives
    /// UART 0 priority 4 against a threshold of 3 and enables it, hands pin 17
    /// to UART 0, configures UART 0, enables its transmit watermark
    /// interrupt and, after a short pause, its transmitter.
    pub fn start(entry: u32, stack_top: u32) -> (board: Board)
        ensures
            board.hart@ == TrapSetupState::reset().after_set_trap_handler(entry).after_set_stack(
                stack_top,
            ).after_enable_m_interrupt().after_enable_m_external_interrupt(),
            board.hart@.ready() && board.hart@.interrupts_enabled()
                && board.hart@.external_enabled(),
            board.plic@ == greeting_plic(),
            board.plic@.wf(),
            board.gpio == greeting_gpio(),
            bit(board.gpio.iof_en, UART0_TX_GPIO17 as int),
            !bit(board.gpio.iof_sel, UART0_TX_GPIO17 as int),
            board.uarts.uart0@ == greeting_uart(),
            board.uarts.uart1@ == UartState::reset(),
            board.engine@ == welcome_state(),
            board.engine@.burst + watermark_of(board.uarts.uart0@.txctrl) <= UART_FIFO_DEPTH + 1,
            board.rx == (RxCounter { count: 0, cur_addr: RX_BOOKKEEPING_ADDR }),
    {
        let mut hart = TrapVectorInstaller::new();
        set_trap_handler(&mut hart, entry);
        set_stack(&mut hart, stack_top);
        let _ = enable_m_interrupt(&mut hart);
        let _ = enable_m_external_interrupt(&mut hart);

        let mut plic = PlicRegisterFile::new();
        plic_disable_src_to_interrupt(&mut plic, PlicIntrSources::all);
        let _ = plic_set_intr_priority_for_src(
            &mut plic,
            PlicIntrSources::uart0,
            PlicIntrPriorityLevels::level4,
        );
        plic_set_priority_threshold(&mut plic, PlicIntrPriorityLevels::level3);
        let _ = plic_enable_src_to_interrupt(&mut plic, PlicIntrSources::uart0);

        let mut gpio = GpioMmapRegs::new();
        let p = DioPin { instance: 0, port: 0, pin_num: UART0_TX_GPIO17 };
        let mode = DioFuncMode::Mux;
        let _ = p.setup_pin();
        p.set_pin_func_mode(&mut gpio, &mode);
        p.select_pin_iof_func(&mut gpio, false);

        let mut uarts = UartRegisterFile::new();
        let uart = Uart {
            instance: 0,
            config: UartConfig {
                baud: 115200,
                start_bits: UartBitCount::Two,
                stop_bits: UartBitCount::Two,
                fifo: UartFifoDepth::Min,
            },
        };
        let _ = uart.configure(&mut uarts);
        let _ = uart.enable_tx_wmark_interrupt(&mut uarts);
        delay(0xf);
        let _ = uart.enable_tx(&mut uarts);

        let engine = UartTxEngine::welcome();
        proof {
            lemma_greeting_watermark();
        }
        Board { hart, plic, gpio, uarts, engine, rx: RxCounter::new(RX_BOOKKEEPING_ADDR) }
    }

    /// The part of the board that a trap can touch.
    pub open spec fn interrupt_path(self) -> InterruptPath {
        InterruptPath::of(self.plic, self.uarts.uart0, self.engine, self.rx)
    }

    /// Takes one trap on this board: runs the trap handler on the value of
    /// `mcause`.
    pub fn trap(&mut self, mcause: u32) -> (outcome: TrapOutcome)
        requires
            old(self).interrupt_path().trap_outcome(mcause) == TrapOutcome::External(
                ExternalOutcome::RxCounted,
            ) ==> old(self).rx.has_room(),
        ensures
            outcome == old(self).interrupt_path().trap_outcome(mcause),
            final(self).interrupt_path() == old(self).interrupt_path().after_trap(mcause),
            final(self).gpio == old(self).gpio,
            final(self).hart@ == old(self).hart@,
            final(self).uarts.uart1@ == old(self).uarts.uart1@,
    {
        m_trap_handler(
            mcause,
            &mut self.plic,
            &mut self.uarts.uart0,
            &mut self.engine,
            &mut self.rx,
        )
    }
}

/// The greeting leaves the transmit watermark of UART 0 at 1.
pub proof fn lemma_greeting_watermark()
    ensures
        watermark_of(greeting_uart().txctrl) == 1,
{
    let configured = greeting_config().applied(UartState::reset());
    let before = UartState::reset().after_set_divisor(
        crate::fe310::uart::spec_baud_divisor(crate::fe310::uart::UART_INPUT_CLOCK_HZ, 115200)
            as u32,
    ).after_set_stopbits(2);
    lemma_with_watermark(before.txctrl, 1);
    assert(watermark_of(configured.txctrl) == 1);
    let w = configured.txctrl;
    assert(((w | (1u32 << 0u8)) >> 16) & 7 == (w >> 16) & 7) by (bit_vector);
}

} // verus!

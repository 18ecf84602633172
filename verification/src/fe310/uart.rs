//! The two UARTs of the FE310: their register block, the FIFOs behind it, and
//! the register-level driver.
//!
//! [`UartState`] is the mathematical model of one UART and says what every
//! register access does. [`UartMmapRegs`] holds that state in executable form,
//! and [`UartRegisterFile`] holds both instances.

use crate::bits::{bit, clear_bit, set_bit, test_bit, with_bit, without_bit};
use crate::error::ConfigError;
use crate::fe310::fifo::{Fifo, UART_FIFO_DEPTH};
use vstd::prelude::*;

verus! {

/// The bus clock that feeds both baud-rate generators, in hertz.
pub const UART_INPUT_CLOCK_HZ: u32 = 16_000_000;

/// In `txdata` the flag "FIFO full", in `rxdata` the flag "FIFO empty".
pub const FIFO_FLAG: u32 = 0x8000_0000;

/// The data byte of `txdata` and `rxdata`.
pub const DATA_SEG_BMASK: u32 = 0x0000_00FF;

/// The watermark field of `txctrl` and `rxctrl`, bits 16 to 18.
pub const FIFO_SEG_BMASK: u32 = 0x0007_0000;

/// The largest value of a watermark field.
pub const MAX_WATERMARK: u32 = 7;

/// Bit 0 of `txctrl` and of `rxctrl`: the channel is active.
pub const CTRL_ENABLE_BIT: u8 = 0;

/// Bit 1 of `txctrl`: clear for one stop bit, set for two.
pub const TXCTRL_NSTOP_BIT: u8 = 1;

/// Bit 0 of `ie` and `ip`: the transmit watermark interrupt.
pub const TXWM_BIT: u8 = 0;

/// Bit 1 of `ie` and `ip`: the receive watermark interrupt.
pub const RXWM_BIT: u8 = 1;

/// The watermark field of a control word.
pub open spec fn watermark_of(ctrl: u32) -> u32 {
    (ctrl >> 16) & 7
}

/// The control word `ctrl` with its watermark field replaced by `level`.
pub open spec fn with_watermark(ctrl: u32, level: u32) -> u32 {
    (ctrl & !0x0007_0000u32) | (level << 16)
}

/// The divisor for a generator fed with `clock` hertz and a target rate of
/// `baud`. The line runs at `clock / (divisor + 1)`; the divisor is the
/// quotient of clock and rate less one, with the quotient rounded up, which
/// is the smallest divisor that does not make the line faster than `baud`.
pub open spec fn spec_baud_divisor(clock: u32, baud: u32) -> int {
    (clock as int + baud as int - 1) / (baud as int) - 1
}

/// The divisor is the smallest one with which the line is no faster than the
/// target rate.
pub proof fn lemma_baud_divisor(clock: u32, baud: u32)
    requires
        clock > 0,
        baud > 0,
    ensures
        0 <= spec_baud_divisor(clock, baud) < clock,
        spec_baud_divisor(clock, baud) * baud < clock,
        clock <= (spec_baud_divisor(clock, baud) + 1) * baud,
{
    let c = clock as int;
    let b = baud as int;
    let q = (c + b - 1) / b;
    assert(q >= 1 && (q - 1) * b < c && c <= q * b && q <= c) by (nonlinear_arith)
        requires
            c > 0,
            b > 0,
            q == (c + b - 1) / b,
    ;
}

/// Replacing the watermark field stores the level and keeps every bit outside
/// the field.
pub proof fn lemma_with_watermark(ctrl: u32, level: u32)
    requires
        level <= MAX_WATERMARK,
    ensures
        watermark_of(with_watermark(ctrl, level)) == level,
        forall|i: int|
            !(16 <= i <= 18) ==> (#[trigger] bit(with_watermark(ctrl, level), i) <==> bit(ctrl, i)),
{
    assert((((ctrl & !0x0007_0000u32) | (level << 16)) >> 16) & 7 == level) by (bit_vector)
        requires
            level <= 7,
    ;
    assert forall|i: int| !(16 <= i <= 18) implies (#[trigger] bit(with_watermark(ctrl, level), i)
        <==> bit(ctrl, i)) by {
        if 0 <= i < 32 {
            let j = i as u32;
            assert(((((ctrl & !0x0007_0000u32) | (level << 16)) >> j) & 1 == 1) <==> ((ctrl >> j)
                & 1 == 1)) by (bit_vector)
                requires
                    level <= 7,
                    j < 32,
                    !(16 <= j <= 18),
            ;
        }
    }
}

/// Reads the watermark field of a control word.
pub fn read_watermark(ctrl: u32) -> (level: u32)
    ensures
        level == watermark_of(ctrl),
        level <= MAX_WATERMARK,
{
    let level: u32 = (ctrl >> 16) & 7;
    assert((ctrl >> 16) & 7 <= 7) by (bit_vector);
    level
}

/// Replaces the watermark field of a control word.
pub fn write_watermark(ctrl: u32, level: u32) -> (out: u32)
    requires
        level <= MAX_WATERMARK,
    ensures
        out == with_watermark(ctrl, level),
        watermark_of(out) == level,
        forall|i: int| !(16 <= i <= 18) ==> (#[trigger] bit(out, i) <==> bit(ctrl, i)),
{
    proof {
        lemma_with_watermark(ctrl, level);
    }
    (ctrl & !FIFO_SEG_BMASK) | (level << 16)
}

/// Computes the divisor for a target baud rate. There is none for a rate of 0
/// nor for a clock of 0.
pub fn baud_divisor(clock: u32, baud: u32) -> (div: Result<u32, ConfigError>)
    ensures
        clock > 0 && baud > 0 ==> div == Ok::<u32, ConfigError>(
            spec_baud_divisor(clock, baud) as u32,
        ) && 0 <= spec_baud_divisor(clock, baud) < clock,
        clock == 0 || baud == 0 ==> div == Err::<u32, ConfigError>(ConfigError::InvalidBaud),
{
    if baud == 0 || clock == 0 {
        return Err(ConfigError::InvalidBaud);
    }
    proof {
        lemma_baud_divisor(clock, baud);
    }
    let quotient: u64 = (clock as u64 + baud as u64 - 1) / (baud as u64);
    Ok((quotient - 1) as u32)
}

/// One UART as mathematics: its four writable registers and the content of
/// its two FIFOs, oldest byte first. The registers `txdata`, `rxdata` and `ip`
/// hold no state of their own; what a read of them returns follows from the
/// FIFOs and the watermarks.
pub struct UartState {
    /// Transmit control: enable, stop bits, watermark.
    pub txctrl: u32,
    /// Receive control: enable, watermark.
    pub rxctrl: u32,
    /// Interrupt enable.
    pub ie: u32,
    /// Baud-rate divisor.
    pub div: u32,
    /// Bytes written and not yet sent.
    pub tx_fifo: Seq<u8>,
    /// Bytes received and not yet read.
    pub rx_fifo: Seq<u8>,
}

impl UartState {
    /// The state after reset: every register 0, both FIFOs empty.
    pub open spec fn reset() -> UartState {
        UartState {
            txctrl: 0,
            rxctrl: 0,
            ie: 0,
            div: 0,
            tx_fifo: Seq::empty(),
            rx_fifo: Seq::empty(),
        }
    }

    /// Neither FIFO holds more than its eight entries.
    pub open spec fn wf(self) -> bool {
        self.tx_fifo.len() <= UART_FIFO_DEPTH && self.rx_fifo.len() <= UART_FIFO_DEPTH
    }

    /// Whether the transmit FIFO has no room.
    pub open spec fn tx_full(self) -> bool {
        self.tx_fifo.len() >= UART_FIFO_DEPTH
    }

    /// Whether the receive FIFO holds nothing.
    pub open spec fn rx_empty(self) -> bool {
        self.rx_fifo.len() == 0
    }

    /// What a read of `txdata` returns: the full flag, with a data field of 0.
    pub open spec fn txdata(self) -> u32 {
        if self.tx_full() {
            FIFO_FLAG
        } else {
            0
        }
    }

    /// What a read of `rxdata` returns: the oldest byte received, or the empty
    /// flag.
    pub open spec fn rxdata(self) -> u32 {
        if self.rx_empty() {
            FIFO_FLAG
        } else {
            self.rx_fifo[0] as u32
        }
    }

    /// Whether the transmit channel is active.
    pub open spec fn tx_enabled(self) -> bool {
        bit(self.txctrl, CTRL_ENABLE_BIT as int)
    }

    /// Whether the receive channel is active.
    pub open spec fn rx_enabled(self) -> bool {
        bit(self.rxctrl, CTRL_ENABLE_BIT as int)
    }

    /// The number of stop bits that the transmitter sends, 1 or 2.
    pub open spec fn stop_bits(self) -> int {
        if bit(self.txctrl, TXCTRL_NSTOP_BIT as int) {
            2
        } else {
            1
        }
    }

    /// The transmit watermark condition: fewer bytes wait in the transmit FIFO
    /// than the watermark of `txctrl` says.
    pub open spec fn tx_watermark_pending(self) -> bool {
        self.tx_fifo.len() < watermark_of(self.txctrl)
    }

    /// The receive watermark condition: more bytes wait in the receive FIFO
    /// than the watermark of `rxctrl` says.
    pub open spec fn rx_watermark_pending(self) -> bool {
        self.rx_fifo.len() > watermark_of(self.rxctrl)
    }

    /// What a read of `ip` returns: bit 0 for the transmit watermark
    /// condition, bit 1 for the receive watermark condition.
    pub open spec fn ip(self) -> u32 {
        if self.tx_watermark_pending() {
            if self.rx_watermark_pending() {
                3
            } else {
                1
            }
        } else {
            if self.rx_watermark_pending() {
                2
            } else {
                0
            }
        }
    }

    /// Whether the UART requests an interrupt: a watermark condition holds
    /// whose bit in `ie` is set.
    pub open spec fn interrupt_line(self) -> bool {
        ||| self.tx_watermark_pending() && bit(self.ie, TXWM_BIT as int)
        ||| self.rx_watermark_pending() && bit(self.ie, RXWM_BIT as int)
    }

    /// The state after `div` is written to the divisor register.
    pub open spec fn after_set_divisor(self, div: u32) -> UartState {
        UartState { div, ..self }
    }

    /// The state after the stop-bit count is set to `sbc`, which is 1 or 2.
    pub open spec fn after_set_stopbits(self, sbc: u8) -> UartState {
        if sbc == 2 {
            UartState { txctrl: with_bit(self.txctrl, TXCTRL_NSTOP_BIT), ..self }
        } else {
            UartState { txctrl: without_bit(self.txctrl, TXCTRL_NSTOP_BIT), ..self }
        }
    }

    /// The state after the transmit watermark is set to `depth`.
    pub open spec fn after_set_tx_watermark(self, depth: u8) -> UartState {
        UartState { txctrl: with_watermark(self.txctrl, depth as u32), ..self }
    }

    /// The state after the receive watermark is set to `depth`.
    pub open spec fn after_set_rx_watermark(self, depth: u8) -> UartState {
        UartState { rxctrl: with_watermark(self.rxctrl, depth as u32), ..self }
    }

    /// The state after the transmit channel is switched on or off.
    pub open spec fn after_set_tx_enable(self, on: bool) -> UartState {
        if on {
            UartState { txctrl: with_bit(self.txctrl, CTRL_ENABLE_BIT), ..self }
        } else {
            UartState { txctrl: without_bit(self.txctrl, CTRL_ENABLE_BIT), ..self }
        }
    }

    /// The state after the receive channel is switched on.
    pub open spec fn after_enable_rx(self) -> UartState {
        UartState { rxctrl: with_bit(self.rxctrl, CTRL_ENABLE_BIT), ..self }
    }

    /// The state after the watermark interrupt with bit `which` of `ie` is
    /// enabled.
    pub open spec fn after_enable_interrupt(self, which: u8) -> UartState {
        UartState { ie: with_bit(self.ie, which), ..self }
    }

    /// The state after one attempt to send `b`: the byte is queued unless the
    /// transmit FIFO is full.
    pub open spec fn after_send_byte(self, b: u8) -> UartState {
        if self.tx_full() {
            self
        } else {
            UartState { tx_fifo: self.tx_fifo.push(b), ..self }
        }
    }

    /// The byte that a write of `word` to `txdata` offers to the FIFO.
    pub open spec fn data_byte(word: u32) -> u8 {
        (word & DATA_SEG_BMASK) as u8
    }

    /// The state after `word` is written to `txdata`: its data byte is queued,
    /// unless the FIFO is full, in which case the write is ignored.
    pub open spec fn after_txdata_write(self, word: u32) -> UartState {
        if self.tx_full() {
            self
        } else {
            UartState { tx_fifo: self.tx_fifo.push(Self::data_byte(word)), ..self }
        }
    }

    /// The state after each of `bytes` is written to `txdata` in turn.
    pub open spec fn after_txdata_writes(self, bytes: Seq<u8>) -> UartState
        decreases bytes.len(),
    {
        if bytes.len() == 0 {
            self
        } else {
            self.after_txdata_writes(bytes.drop_last()).after_txdata_write(bytes.last() as u32)
        }
    }

    /// The state after a read of `rxdata`: the oldest byte received is gone.
    pub open spec fn after_rxdata_read(self) -> UartState {
        if self.rx_empty() {
            self
        } else {
            UartState { rx_fifo: self.rx_fifo.drop_first(), ..self }
        }
    }

    /// Whether the transmitter has a byte to put on the line.
    pub open spec fn can_shift_out(self) -> bool {
        self.tx_enabled() && self.tx_fifo.len() > 0
    }

    /// The state after the transmitter has taken the next byte for the line.
    pub open spec fn after_shift_out(self) -> UartState {
        if self.can_shift_out() {
            UartState { tx_fifo: self.tx_fifo.drop_first(), ..self }
        } else {
            self
        }
    }

    /// Whether the receiver would keep a byte that arrives on the line.
    pub open spec fn can_shift_in(self) -> bool {
        self.rx_enabled() && self.rx_fifo.len() < UART_FIFO_DEPTH
    }

    /// The state after `byte` has arrived on the line.
    pub open spec fn after_shift_in(self, byte: u8) -> UartState {
        if self.can_shift_in() {
            UartState { rx_fifo: self.rx_fifo.push(byte), ..self }
        } else {
            self
        }
    }

    /// Writing the bytes of a burst one by one queues them all, in order,
    /// whenever the FIFO has room for the whole burst.
    pub proof fn lemma_writes_fit(self, bytes: Seq<u8>)
        requires
            self.tx_fifo.len() + bytes.len() <= UART_FIFO_DEPTH,
        ensures
            self.after_txdata_writes(bytes) == (UartState {
                tx_fifo: self.tx_fifo + bytes,
                ..self
            }),
        decreases bytes.len(),
    {
        if bytes.len() == 0 {
            assert(self.tx_fifo + bytes =~= self.tx_fifo);
        } else {
            let head = bytes.drop_last();
            self.lemma_writes_fit(head);
            lemma_data_byte(bytes.last());
            assert((self.tx_fifo + head).push(bytes.last()) =~= self.tx_fifo + bytes);
        }
    }

    /// A burst written while the transmit watermark condition holds cannot
    /// overrun the FIFO, if burst and watermark together stay within one more
    /// than the FIFO's depth: every byte of the burst is queued.
    pub proof fn lemma_watermark_guarantees_room(self, bytes: Seq<u8>)
        requires
            self.tx_watermark_pending(),
            bytes.len() + watermark_of(self.txctrl) <= UART_FIFO_DEPTH + 1,
        ensures
            self.after_txdata_writes(bytes).tx_fifo == self.tx_fifo + bytes,
    {
        self.lemma_writes_fit(bytes);
    }

    /// Writes to `txdata` touch nothing but the transmit FIFO and never
    /// overfill it.
    pub proof fn lemma_writes_frame(self, bytes: Seq<u8>)
        requires
            self.wf(),
        ensures
            self.after_txdata_writes(bytes).wf(),
            self.after_txdata_writes(bytes) == (UartState {
                tx_fifo: self.after_txdata_writes(bytes).tx_fifo,
                ..self
            }),
        decreases bytes.len(),
    {
        if bytes.len() > 0 {
            self.lemma_writes_frame(bytes.drop_last());
        }
    }
}

/// A byte written to `txdata` is the byte that the FIFO receives.
pub proof fn lemma_data_byte(b: u8)
    ensures
        UartState::data_byte(b as u32) == b,
        UartState::data_byte((0u32 & 0xFFFF_FFF0u32) | (b as u32)) == b,
{
    let w = b as u32;
    assert(w & 0xFF == w) by (bit_vector)
        requires
            w < 256,
    ;
    assert((0u32 & 0xFFFF_FFF0u32) | w == w) by (bit_vector);
}

/// The pending bits as `ip` reports them.
pub proof fn lemma_ip_bits(state: UartState)
    ensures
        bit(state.ip(), TXWM_BIT as int) == state.tx_watermark_pending(),
        bit(state.ip(), RXWM_BIT as int) == state.rx_watermark_pending(),
{
    assert((0u32 >> 0u32) & 1 == 0 && (0u32 >> 1u32) & 1 == 0 && (1u32 >> 0u32) & 1 == 1 && (1u32
        >> 1u32) & 1 == 0 && (2u32 >> 0u32) & 1 == 0 && (2u32 >> 1u32) & 1 == 1 && (3u32 >> 0u32)
        & 1 == 1 && (3u32 >> 1u32) & 1 == 1) by (bit_vector);
}

/// The register block of one UART together with the FIFOs behind `txdata`
/// and `rxdata`.
pub struct UartMmapRegs {
    txctrl: u32,
    rxctrl: u32,
    ie: u32,
    div: u32,
    tx_fifo: Fifo,
    rx_fifo: Fifo,
}

impl View for UartMmapRegs {
    type V = UartState;

    closed spec fn view(&self) -> UartState {
        UartState {
            txctrl: self.txctrl,
            rxctrl: self.rxctrl,
            ie: self.ie,
            div: self.div,
            tx_fifo: self.tx_fifo@,
            rx_fifo: self.rx_fifo@,
        }
    }
}

impl UartMmapRegs {
    /// The register block as reset leaves it.
    pub fn new() -> (uart: UartMmapRegs)
        ensures
            uart@ == UartState::reset(),
    {
        UartMmapRegs {
            txctrl: 0,
            rxctrl: 0,
            ie: 0,
            div: 0,
            tx_fifo: Fifo::new(),
            rx_fifo: Fifo::new(),
        }
    }

    /// Reads `txctrl`.
    pub fn txctrl(&self) -> (word: u32)
        ensures
            word == self@.txctrl,
    {
        self.txctrl
    }

    /// Reads `rxctrl`.
    pub fn rxctrl(&self) -> (word: u32)
        ensures
            word == self@.rxctrl,
    {
        self.rxctrl
    }

    /// Reads `ie`.
    pub fn ie(&self) -> (word: u32)
        ensures
            word == self@.ie,
    {
        self.ie
    }

    /// Reads `div`.
    pub fn div(&self) -> (word: u32)
        ensures
            word == self@.div,
    {
        self.div
    }

    /// Reads `txdata`: the full flag.
    pub fn txdata(&self) -> (word: u32)
        ensures
            word == self@.txdata(),
            self@.tx_fifo.len() <= UART_FIFO_DEPTH,
    {
        if self.tx_fifo.is_full() {
            FIFO_FLAG
        } else {
            0
        }
    }

    /// Reads `ip`: the watermark conditions that hold now.
    pub fn ip(&self) -> (word: u32)
        ensures
            word == self@.ip(),
            bit(word, TXWM_BIT as int) == self@.tx_watermark_pending(),
            bit(word, RXWM_BIT as int) == self@.rx_watermark_pending(),
    {
        let tx = (self.tx_fifo.len() as u32) < read_watermark(self.txctrl);
        let rx = (self.rx_fifo.len() as u32) > read_watermark(self.rxctrl);
        proof {
            lemma_ip_bits(self@);
        }
        if tx {
            if rx {
                3
            } else {
                1
            }
        } else {
            if rx {
                2
            } else {
                0
            }
        }
    }

    /// Whether the UART requests an interrupt from the interrupt controller.
    pub fn interrupt_line(&self) -> (asserted: bool)
        ensures
            asserted == self@.interrupt_line(),
    {
        let ip = self.ip();
        (test_bit(ip, TXWM_BIT) && test_bit(self.ie, TXWM_BIT)) || (test_bit(ip, RXWM_BIT)
            && test_bit(self.ie, RXWM_BIT))
    }

    /// The number of bytes waiting in the transmit FIFO.
    pub fn tx_fifo_len(&self) -> (n: usize)
        ensures
            n == self@.tx_fifo.len(),
            n <= UART_FIFO_DEPTH,
    {
        self.tx_fifo.len()
    }

    /// Writes `word` to `txdata`: its data byte joins the transmit FIFO,
    /// unless the FIFO is full, in which case the write is ignored.
    pub fn write_txdata(&mut self, word: u32)
        ensures
            final(self)@ == old(self)@.after_txdata_write(word),
    {
        assert(word & 0xFF < 256) by (bit_vector);
        let byte = (word & DATA_SEG_BMASK) as u8;
        let _ = self.tx_fifo.push(byte);
    }

    /// Reads `rxdata`: returns the oldest byte received and takes it off the
    /// receive FIFO, or returns the empty flag.
    pub fn read_rxdata(&mut self) -> (word: u32)
        ensures
            word == old(self)@.rxdata(),
            final(self)@ == old(self)@.after_rxdata_read(),
    {
        match self.rx_fifo.pop() {
            Some(byte) => byte as u32,
            None => FIFO_FLAG,
        }
    }

    /// The transmitter takes the next byte for the line. Returns the byte, or
    /// nothing when the channel is disabled or the FIFO is empty.
    pub fn shift_out(&mut self) -> (sent: Option<u8>)
        ensures
            final(self)@ == old(self)@.after_shift_out(),
            old(self)@.can_shift_out() ==> sent == Some(old(self)@.tx_fifo[0]),
            !old(self)@.can_shift_out() ==> sent is None,
    {
        if test_bit(self.txctrl, CTRL_ENABLE_BIT) {
            self.tx_fifo.pop()
        } else {
            None
        }
    }

    /// A byte arrives on the line. Returns whether the receiver kept it: it
    /// does not while the channel is disabled or the FIFO is full.
    pub fn shift_in(&mut self, byte: u8) -> (kept: bool)
        ensures
            final(self)@ == old(self)@.after_shift_in(byte),
            kept == old(self)@.can_shift_in(),
    {
        if test_bit(self.rxctrl, CTRL_ENABLE_BIT) {
            self.rx_fifo.push(byte)
        } else {
            false
        }
    }
}

impl UartMmapRegs {
    /// Programs the baud-rate divisor.
    pub fn set_baud_divisor(&mut self, div: u32)
        ensures
            final(self)@ == old(self)@.after_set_divisor(div),
    {
        self.div = div;
    }

    /// Programs the number of stop bits, 1 or 2; rejects any other count and
    /// then changes nothing.
    pub fn set_stopbits(&mut self, sbc: u8) -> (done: Result<(), ConfigError>)
        ensures
            (sbc == 1 || sbc == 2) ==> done is Ok && final(self)@ == old(self)@.after_set_stopbits(
                sbc,
            ) && final(self)@.stop_bits() == sbc,
            !(sbc == 1 || sbc == 2) ==> done == Err::<(), ConfigError>(
                ConfigError::InvalidStopBits,
            ) && final(self)@ == old(self)@,
    {
        if sbc == 1 {
            self.txctrl = clear_bit(self.txctrl, TXCTRL_NSTOP_BIT);
            Ok(())
        } else if sbc == 2 {
            self.txctrl = set_bit(self.txctrl, TXCTRL_NSTOP_BIT);
            Ok(())
        } else {
            Err(ConfigError::InvalidStopBits)
        }
    }

    /// Programs the transmit watermark: the transmit watermark condition
    /// holds while fewer than `depth` bytes wait in the transmit FIFO.
    /// Rejects a `depth` above 7 and then changes nothing.
    pub fn set_tx_fifo_depth(&mut self, depth: u8) -> (done: Result<(), ConfigError>)
        ensures
            depth <= MAX_WATERMARK ==> done is Ok && final(self)@ == old(
                self,
            )@.after_set_tx_watermark(depth) && watermark_of(final(self)@.txctrl) == depth,
            depth > MAX_WATERMARK ==> done == Err::<(), ConfigError>(
                ConfigError::InvalidFifoDepth,
            ) && final(self)@ == old(self)@,
    {
        if depth > 7 {
            return Err(ConfigError::InvalidFifoDepth);
        }
        self.txctrl = write_watermark(self.txctrl, depth as u32);
        Ok(())
    }

    /// Programs the receive watermark: the receive watermark condition holds
    /// while more than `depth` bytes wait in the receive FIFO. Rejects a
    /// `depth` above 7 and then changes nothing.
    pub fn set_rx_fifo_depth(&mut self, depth: u8) -> (done: Result<(), ConfigError>)
        ensures
            depth <= MAX_WATERMARK ==> done is Ok && final(self)@ == old(
                self,
            )@.after_set_rx_watermark(depth) && watermark_of(final(self)@.rxctrl) == depth,
            depth > MAX_WATERMARK ==> done == Err::<(), ConfigError>(
                ConfigError::InvalidFifoDepth,
            ) && final(self)@ == old(self)@,
    {
        if depth > 7 {
            return Err(ConfigError::InvalidFifoDepth);
        }
        self.rxctrl = write_watermark(self.rxctrl, depth as u32);
        Ok(())
    }

    /// Switches the transmit channel on.
    pub fn enable_tx(&mut self)
        ensures
            final(self)@ == old(self)@.after_set_tx_enable(true),
            final(self)@.tx_enabled(),
    {
        self.txctrl = set_bit(self.txctrl, CTRL_ENABLE_BIT);
    }

    /// Switches the transmit channel off. Bytes still in the FIFO stay there.
    pub fn disable_tx(&mut self)
        ensures
            final(self)@ == old(self)@.after_set_tx_enable(false),
            !final(self)@.tx_enabled(),
    {
        self.txctrl = clear_bit(self.txctrl, CTRL_ENABLE_BIT);
    }

    /// Switches the receive channel on.
    pub fn enable_rx(&mut self)
        ensures
            final(self)@ == old(self)@.after_enable_rx(),
            final(self)@.rx_enabled(),
    {
        self.rxctrl = set_bit(self.rxctrl, CTRL_ENABLE_BIT);
    }

    /// Enables the transmit watermark interrupt.
    pub fn enable_tx_wmark_interrupt(&mut self)
        ensures
            final(self)@ == old(self)@.after_enable_interrupt(TXWM_BIT),
            bit(final(self)@.ie, TXWM_BIT as int),
    {
        self.ie = set_bit(self.ie, TXWM_BIT);
    }

    /// Enables the receive watermark interrupt.
    pub fn enable_rx_wmark_interrupt(&mut self)
        ensures
            final(self)@ == old(self)@.after_enable_interrupt(RXWM_BIT),
            bit(final(self)@.ie, RXWM_BIT as int),
    {
        self.ie = set_bit(self.ie, RXWM_BIT);
    }

    /// Makes one attempt to send `b`: reads the full flag and, if the FIFO
    /// has room, writes the byte to `txdata`. Returns whether the byte was
    /// queued; a caller that finds it was not polls again.
    pub fn do_send_byte(&mut self, b: u8) -> (queued: bool)
        ensures
            queued == !old(self)@.tx_full(),
            final(self)@ == old(self)@.after_send_byte(b),
    {
        let status = self.txdata();
        if status >> 31 == 1 {
            assert(status == FIFO_FLAG) by {
                assert(0u32 >> 31 != 1) by (bit_vector);
            }
            return false;
        }
        assert(status == 0) by {
            assert(0x8000_0000u32 >> 31 == 1) by (bit_vector);
        }
        proof {
            lemma_data_byte(b);
        }
        self.write_txdata((status & 0xFFFF_FFF0) | (b as u32));
        true
    }
}

/// The number of UART instances on the chip.
pub const UART_INSTANCE_COUNT: u8 = 2;

/// The register blocks of both UARTs.
pub struct UartRegisterFile {
    /// The first UART, wired to the USB bridge of the board.
    pub uart0: UartMmapRegs,
    /// The second UART.
    pub uart1: UartMmapRegs,
}

impl UartRegisterFile {
    /// Both register blocks as reset leaves them.
    pub fn new() -> (uarts: UartRegisterFile)
        ensures
            uarts.uart0@ == UartState::reset(),
            uarts.uart1@ == UartState::reset(),
    {
        UartRegisterFile { uart0: UartMmapRegs::new(), uart1: UartMmapRegs::new() }
    }

    /// The state of the UART with number `instance`, which is 0 or 1.
    pub open spec fn state_of(self, instance: u8) -> UartState {
        if instance == 0 {
            self.uart0@
        } else {
            self.uart1@
        }
    }

    /// The outcome of a setup call on `instance` that takes its UART from its
    /// old state to `next`: the call succeeds, that UART is in state `next`
    /// and the other one is untouched. For an instance number that names no
    /// UART the call fails and neither UART changes.
    pub open spec fn configured(
        self,
        after: UartRegisterFile,
        instance: u8,
        next: UartState,
        done: Result<(), ConfigError>,
    ) -> bool {
        if instance == 0 {
            done is Ok && after.uart0@ == next && after.uart1@ == self.uart1@
        } else if instance == 1 {
            done is Ok && after.uart1@ == next && after.uart0@ == self.uart0@
        } else {
            done == Err::<(), ConfigError>(ConfigError::InvalidInstance) && self.unchanged(after)
        }
    }

    /// Both UARTs are in `after` as they are here.
    pub open spec fn unchanged(self, after: UartRegisterFile) -> bool {
        after.uart0@ == self.uart0@ && after.uart1@ == self.uart1@
    }
}

/// Programs the baud-rate divisor of UART `instance`.
pub fn uart_set_baud_divisor(uarts: &mut UartRegisterFile, instance: u8, div: u32) -> (done: Result<
    (),
    ConfigError,
>)
    ensures
        old(uarts).configured(
            *final(uarts),
            instance,
            old(uarts).state_of(instance).after_set_divisor(div),
            done,
        ),
{
    match instance {
        0 => {
            uarts.uart0.set_baud_divisor(div);
            Ok(())
        },
        1 => {
            uarts.uart1.set_baud_divisor(div);
            Ok(())
        },
        _ => Err(ConfigError::InvalidInstance),
    }
}

/// Programs the number of stop bits of UART `instance`. An instance number
/// that names no UART is rejected first, then a count other than 1 or 2;
/// either way nothing changes.
pub fn uart_set_stopbits(uarts: &mut UartRegisterFile, instance: u8, sbc: u8) -> (done: Result<
    (),
    ConfigError,
>)
    ensures
        (sbc == 1 || sbc == 2) ==> old(uarts).configured(
            *final(uarts),
            instance,
            old(uarts).state_of(instance).after_set_stopbits(sbc),
            done,
        ),
        !(sbc == 1 || sbc == 2) ==> old(uarts).unchanged(*final(uarts)) && done == Err::<(), ConfigError>(
            if instance < UART_INSTANCE_COUNT {
                ConfigError::InvalidStopBits
            } else {
                ConfigError::InvalidInstance
            },
        ),
{
    match instance {
        0 => uarts.uart0.set_stopbits(sbc),
        1 => uarts.uart1.set_stopbits(sbc),
        _ => Err(ConfigError::InvalidInstance),
    }
}

/// Programs the transmit watermark of UART `instance`. An instance number
/// that names no UART is rejected first, then a depth above 7; either way
/// nothing changes.
pub fn uart_set_tx_fifo_depth(uarts: &mut UartRegisterFile, instance: u8, depth: u8) -> (done:
    Result<(), ConfigError>)
    ensures
        depth <= MAX_WATERMARK ==> old(uarts).configured(
            *final(uarts),
            instance,
            old(uarts).state_of(instance).after_set_tx_watermark(depth),
            done,
        ),
        depth > MAX_WATERMARK ==> old(uarts).unchanged(*final(uarts)) && done == Err::<(), ConfigError>(
            if instance < UART_INSTANCE_COUNT {
                ConfigError::InvalidFifoDepth
            } else {
                ConfigError::InvalidInstance
            },
        ),
{
    match instance {
        0 => uarts.uart0.set_tx_fifo_depth(depth),
        1 => uarts.uart1.set_tx_fifo_depth(depth),
        _ => Err(ConfigError::InvalidInstance),
    }
}

/// Makes one attempt to send `b` through UART `instance`. Returns whether the
/// byte was queued; while the transmit FIFO is full it is not, and the caller
/// polls again.
pub fn uart_do_send_byte(uarts: &mut UartRegisterFile, instance: u8, b: u8) -> (queued: Result<
    bool,
    ConfigError,
>)
    ensures
        instance < UART_INSTANCE_COUNT ==> queued == Ok::<bool, ConfigError>(
            !old(uarts).state_of(instance).tx_full(),
        ),
        instance >= UART_INSTANCE_COUNT ==> queued == Err::<bool, ConfigError>(
            ConfigError::InvalidInstance,
        ),
        old(uarts).configured(
            *final(uarts),
            instance,
            old(uarts).state_of(instance).after_send_byte(b),
            match queued {
                Ok(_) => Ok(()),
                Err(e) => Err(e),
            },
        ),
{
    match instance {
        0 => Ok(uarts.uart0.do_send_byte(b)),
        1 => Ok(uarts.uart1.do_send_byte(b)),
        _ => Err(ConfigError::InvalidInstance),
    }
}

/// Switches the transmit channel of UART `instance` on.
pub fn uart_enable_tx(uarts: &mut UartRegisterFile, instance: u8) -> (done: Result<(), ConfigError>)
    ensures
        old(uarts).configured(
            *final(uarts),
            instance,
            old(uarts).state_of(instance).after_set_tx_enable(true),
            done,
        ),
{
    match instance {
        0 => {
            uarts.uart0.enable_tx();
            Ok(())
        },
        1 => {
            uarts.uart1.enable_tx();
            Ok(())
        },
        _ => Err(ConfigError::InvalidInstance),
    }
}

/// Switches the transmit channel of UART `instance` off.
pub fn uart_disable_tx(uarts: &mut UartRegisterFile, instance: u8) -> (done: Result<
    (),
    ConfigError,
>)
    ensures
        old(uarts).configured(
            *final(uarts),
            instance,
            old(uarts).state_of(instance).after_set_tx_enable(false),
            done,
        ),
{
    match instance {
        0 => {
            uarts.uart0.disable_tx();
            Ok(())
        },
        1 => {
            uarts.uart1.disable_tx();
            Ok(())
        },
        _ => Err(ConfigError::InvalidInstance),
    }
}

/// Enables the transmit watermark interrupt of UART `instance`.
pub fn uart_enable_tx_wmark_interrupt(uarts: &mut UartRegisterFile, instance: u8) -> (done: Result<
    (),
    ConfigError,
>)
    ensures
        old(uarts).configured(
            *final(uarts),
            instance,
            old(uarts).state_of(instance).after_enable_interrupt(TXWM_BIT),
            done,
        ),
{
    match instance {
        0 => {
            uarts.uart0.enable_tx_wmark_interrupt();
            Ok(())
        },
        1 => {
            uarts.uart1.enable_tx_wmark_interrupt();
            Ok(())
        },
        _ => Err(ConfigError::InvalidInstance),
    }
}

} // verus!

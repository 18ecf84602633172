//! The interrupt-driven transmit engine: it streams a fixed message through
//! the transmit FIFO of a UART, one burst for every watermark interrupt, so
//! that the hart never waits for a byte to leave.

use crate::fe310::fifo::UART_FIFO_DEPTH;
use crate::fe310::uart::{read_watermark, watermark_of, UartMmapRegs};
use vstd::prelude::*;

verus! {

/// The burst size of the welcome engine.
pub const WELCOME_BURST: usize = 5;

/// The engine as mathematics: the message, the position of the next byte to
/// send, and the number of bytes sent per interrupt.
pub struct TxEngineState {
    /// The bytes that the engine sends over and over.
    pub message: Seq<u8>,
    /// The index in `message` of the next byte to send.
    pub cursor: nat,
    /// The number of bytes pushed per refill.
    pub burst: nat,
}

impl TxEngineState {
    /// What holds of the engine at all times: there is a message, the cursor
    /// points into it, and a burst is at least one byte and smaller than the
    /// FIFO.
    pub open spec fn wf(self) -> bool {
        &&& self.message.len() > 0
        &&& self.cursor < self.message.len()
        &&& 1 <= self.burst < UART_FIFO_DEPTH
    }

    /// The number of bytes that the next refill pushes: a whole burst, or
    /// what is left of the message when that is less.
    pub open spec fn burst_len(self) -> nat {
        if self.cursor + self.burst <= self.message.len() {
            self.burst
        } else {
            (self.message.len() - self.cursor) as nat
        }
    }

    /// The bytes that the next refill pushes, in order.
    pub open spec fn next_burst(self) -> Seq<u8> {
        self.message.subrange(self.cursor as int, (self.cursor + self.burst_len()) as int)
    }

    /// The cursor after the next refill: advanced by the burst size, and back
    /// at 0 once it has reached the end of the message.
    pub open spec fn next_cursor(self) -> nat {
        if self.cursor + self.burst >= self.message.len() {
            0
        } else {
            self.cursor + self.burst
        }
    }

    /// The engine after one refill.
    pub open spec fn after_refill(self) -> TxEngineState {
        TxEngineState { cursor: self.next_cursor(), ..self }
    }

    /// The engine after `n` refills.
    pub open spec fn after_refills(self, n: nat) -> TxEngineState
        decreases n,
    {
        if n == 0 {
            self
        } else {
            self.after_refills((n - 1) as nat).after_refill()
        }
    }

    /// All the bytes pushed by `n` refills, in order.
    pub open spec fn sent_by_refills(self, n: nat) -> Seq<u8>
        decreases n,
    {
        if n == 0 {
            Seq::empty()
        } else {
            self.sent_by_refills((n - 1) as nat) + self.after_refills(
                (n - 1) as nat,
            ).next_burst()
        }
    }

    /// The number of refills that send the message once: its length divided
    /// by the burst size, rounded up.
    pub open spec fn refills_per_pass(self) -> nat {
        ((self.message.len() + self.burst - 1) / (self.burst as int)) as nat
    }

    /// A refill never reads past the end of the message and leaves the
    /// engine well-formed.
    pub proof fn lemma_refill_in_bounds(self)
        requires
            self.wf(),
        ensures
            self.after_refill().wf(),
            1 <= self.burst_len() <= self.burst,
            self.cursor + self.burst_len() <= self.message.len(),
            self.next_burst().len() == self.burst_len(),
    {
    }

    /// The number of refills per pass is the least number of bursts that
    /// cover the message.
    pub proof fn lemma_refills_per_pass(self)
        requires
            self.wf(),
        ensures
            self.refills_per_pass() >= 1,
            (self.refills_per_pass() - 1) * self.burst < self.message.len(),
            self.message.len() <= self.refills_per_pass() * self.burst,
    {
        let l = self.message.len() as int;
        let b = self.burst as int;
        let n = (l + b - 1) / b;
        assert(n >= 1 && (n - 1) * b < l && l <= n * b) by (nonlinear_arith)
            requires
                l > 0,
                b > 0,
                n == (l + b - 1) / b,
        ;
    }

    /// Starting from the beginning of the message, every refill advances the
    /// cursor by exactly the burst size until, with the last refill of the
    /// pass, it returns to 0. Along the way the refills push the message
    /// itself, byte for byte and nothing else.
    pub proof fn lemma_pass(self, k: nat)
        requires
            self.wf(),
            self.cursor == 0,
            k <= self.refills_per_pass(),
        ensures
            self.after_refills(k).wf(),
            self.after_refills(k).message == self.message,
            self.after_refills(k).burst == self.burst,
            k < self.refills_per_pass() ==> self.after_refills(k).cursor == k * self.burst,
            k == self.refills_per_pass() ==> self.after_refills(k).cursor == 0,
            k < self.refills_per_pass() ==> self.sent_by_refills(k) == self.message.subrange(
                0,
                (k * self.burst) as int,
            ),
            k == self.refills_per_pass() ==> self.sent_by_refills(k) == self.message,
        decreases k,
    {
        let l = self.message.len() as int;
        let b = self.burst as int;
        let n = self.refills_per_pass() as int;
        self.lemma_refills_per_pass();
        if k == 0 {
            assert(self.sent_by_refills(0) =~= self.message.subrange(0, 0));
        } else {
            let j = (k - 1) as nat;
            self.lemma_pass(j);
            let before = self.after_refills(j);
            assert(j * b <= (n - 1) * b) by (nonlinear_arith)
                requires
                    j <= n - 1,
                    b > 0,
            ;
            assert(before.cursor == j * b);
            assert(j * b + b == k * b) by (nonlinear_arith)
                requires
                    k == j + 1,
            ;
            if k < n {
                assert(k * b <= (n - 1) * b) by (nonlinear_arith)
                    requires
                        k <= n - 1,
                        b > 0,
                ;
                assert(self.sent_by_refills(k) =~= self.message.subrange(0, k * b));
            } else {
                assert(self.sent_by_refills(k) =~= self.message);
            }
        }
    }
}

/// The greeting: `WelcometoLearnRISCV`, line feed, carriage return.
pub open spec fn welcome_message() -> Seq<u8> {
    seq![
        87u8,
        101u8,
        108u8,
        99u8,
        111u8,
        109u8,
        101u8,
        116u8,
        111u8,
        76u8,
        101u8,
        97u8,
        114u8,
        110u8,
        82u8,
        73u8,
        83u8,
        67u8,
        86u8,
        10u8,
        13u8,
    ]
}

/// The engine of the greeting before its first refill.
pub open spec fn welcome_state() -> TxEngineState {
    TxEngineState { message: welcome_message(), cursor: 0, burst: WELCOME_BURST as nat }
}

/// The transmit engine: a fixed message, a cursor into it and a burst size.
pub struct UartTxEngine {
    message: Vec<u8>,
    cursor: usize,
    burst: usize,
}

impl View for UartTxEngine {
    type V = TxEngineState;

    closed spec fn view(&self) -> TxEngineState {
        TxEngineState {
            message: self.message@,
            cursor: self.cursor as nat,
            burst: self.burst as nat,
        }
    }
}

impl UartTxEngine {
    #[verifier::type_invariant]
    spec fn inv(&self) -> bool {
        self@.wf()
    }

    /// An engine for `message` that pushes `burst` bytes per refill, with its
    /// cursor at 0. There is none for an empty message, nor for a burst of 0
    /// or one that would not leave room in the FIFO.
    pub fn new(message: Vec<u8>, burst: usize) -> (engine: Option<UartTxEngine>)
        ensures
            engine is Some <==> message@.len() > 0 && 1 <= burst < UART_FIFO_DEPTH,
            engine matches Some(e) ==> e@ == (TxEngineState {
                message: message@,
                cursor: 0,
                burst: burst as nat,
            }) && e@.wf(),
    {
        if message.len() == 0 || burst < 1 || burst >= UART_FIFO_DEPTH {
            return None;
        }
        Some(UartTxEngine { message, cursor: 0, burst })
    }

    /// The engine of the board's greeting: the 21 bytes
    /// `WelcometoLearnRISCV`, line feed, carriage return, in bursts of five.
    pub fn welcome() -> (engine: UartTxEngine)
        ensures
            engine@ == welcome_state(),
            engine@.wf(),
    {
        let message: Vec<u8> = vec![
            87u8,
            101u8,
            108u8,
            99u8,
            111u8,
            109u8,
            101u8,
            116u8,
            111u8,
            76u8,
            101u8,
            97u8,
            114u8,
            110u8,
            82u8,
            73u8,
            83u8,
            67u8,
            86u8,
            10u8,
            13u8,
        ];
        assert(message@ =~= welcome_message());
        UartTxEngine { message, cursor: 0, burst: WELCOME_BURST }
    }

    /// The index of the next byte to send.
    pub fn cursor(&self) -> (cursor: usize)
        ensures
            cursor == self@.cursor,
            cursor < self@.message.len(),
    {
        proof {
            use_type_invariant(self);
        }
        self.cursor
    }

    /// The number of bytes pushed per refill.
    pub fn burst_size(&self) -> (burst: usize)
        ensures
            burst == self@.burst,
            1 <= burst < UART_FIFO_DEPTH,
    {
        proof {
            use_type_invariant(self);
        }
        self.burst
    }

    /// The length of the message.
    pub fn message_len(&self) -> (len: usize)
        ensures
            len == self@.message.len(),
            len > 0,
    {
        proof {
            use_type_invariant(self);
        }
        self.message.len()
    }

    /// Whether a burst is certain to fit whenever the transmit watermark
    /// interrupt of `uart` fires: burst and watermark together do not exceed
    /// the depth of the FIFO by more than one.
    pub fn fits_watermark(&self, uart: &UartMmapRegs) -> (fits: bool)
        ensures
            fits == (self@.burst + watermark_of(uart@.txctrl) <= UART_FIFO_DEPTH + 1),
    {
        proof {
            use_type_invariant(self);
        }
        self.burst + (read_watermark(uart.txctrl()) as usize) <= UART_FIFO_DEPTH + 1
    }

    /// Hands out the next burst and advances the cursor past it, wrapping to
    /// 0 at the end of the message.
    pub fn take_burst(&mut self) -> (bytes: Vec<u8>)
        ensures
            bytes@ == old(self)@.next_burst(),
            final(self)@ == old(self)@.after_refill(),
            final(self)@.wf(),
    {
        proof {
            use_type_invariant(&*self);
        }
        let len = self.message.len();
        let remaining = len - self.cursor;
        let count = if self.burst < remaining {
            self.burst
        } else {
            remaining
        };
        let end = self.cursor + count;
        let mut bytes: Vec<u8> = Vec::new();
        let mut i = self.cursor;
        while i < end
            invariant
                *self == *old(self),
                self.cursor <= i <= end,
                end <= self.message.len(),
                bytes@ == self.message@.subrange(self.cursor as int, i as int),
            decreases end - i,
        {
            bytes.push(self.message[i]);
            assert(bytes@ =~= self.message@.subrange(self.cursor as int, i + 1));
            i += 1;
        }
        self.cursor = if end == len {
            0
        } else {
            end
        };
        bytes
    }

    /// Serves one transmit watermark interrupt: writes the next burst to
    /// `txdata` of `uart`, byte by byte and without waiting, and advances the
    /// cursor past it. Apart from the transmit FIFO and the cursor nothing
    /// changes.
    pub fn refill(&mut self, uart: &mut UartMmapRegs)
        ensures
            final(self)@ == old(self)@.after_refill(),
            final(self)@.wf(),
            final(uart)@ == old(uart)@.after_txdata_writes(old(self)@.next_burst()),
    {
        let bytes = self.take_burst();
        let mut i: usize = 0;
        while i < bytes.len()
            invariant
                i <= bytes.len(),
                uart@ == old(uart)@.after_txdata_writes(bytes@.take(i as int)),
            decreases bytes.len() - i,
        {
            uart.write_txdata(bytes[i] as u32);
            proof {
                let head = bytes@.take(i + 1);
                assert(head.drop_last() =~= bytes@.take(i as int));
                assert(head.last() == bytes@[i as int]);
            }
            i += 1;
        }
        assert(bytes@.take(bytes@.len() as int) =~= bytes@);
    }
}

} // verus!

use hifive1_bsp::error::ConfigError;
use hifive1_bsp::fe310::fifo::Fifo;
use hifive1_bsp::fe310::tx_engine::UartTxEngine;
use hifive1_bsp::fe310::uart::{
    baud_divisor, read_watermark, uart_disable_tx, uart_do_send_byte, uart_enable_tx,
    uart_enable_tx_wmark_interrupt, uart_set_baud_divisor, uart_set_stopbits,
    uart_set_tx_fifo_depth, write_watermark, UartMmapRegs, UartRegisterFile,
};

#[test]
fn baud_divisor_for_115200_is_138() {
    assert_eq!(baud_divisor(16_000_000, 115200), Ok(138));
}

#[test]
fn baud_divisor_for_31250_is_511() {
    assert_eq!(baud_divisor(16_000_000, 31250), Ok(511));
}

#[test]
fn baud_divisor_edges() {
    assert_eq!(baud_divisor(16_000_000, 0), Err(ConfigError::InvalidBaud));
    assert_eq!(baud_divisor(0, 9600), Err(ConfigError::InvalidBaud));
    assert_eq!(baud_divisor(16_000_000, 16_000_000), Ok(0));
    assert_eq!(baud_divisor(16_000_000, 20_000_000), Ok(0));
    assert_eq!(baud_divisor(16_000_000, 1), Ok(15_999_999));
    assert_eq!(baud_divisor(u32::MAX, u32::MAX), Ok(0));
    assert_eq!(baud_divisor(u32::MAX, 1), Ok(u32::MAX - 1));
    assert_eq!(baud_divisor(16_000_000, 9600), Ok(1666));
}

#[test]
fn baud_divisor_never_overshoots_the_rate() {
    for baud in [300u32, 1200, 2400, 9600, 19200, 31250, 57600, 115200, 230400, 1_000_000] {
        let d = baud_divisor(16_000_000, baud).unwrap() as u64;
        assert!(d * (baud as u64) < 16_000_000);
        assert!(16_000_000 <= (d + 1) * (baud as u64));
    }
}

#[test]
fn watermark_field_is_bits_16_to_18() {
    assert_eq!(write_watermark(0, 7), 0x0007_0000);
    assert_eq!(write_watermark(0xFFFF_FFFF, 0), 0xFFF8_FFFF);
    assert_eq!(write_watermark(0x0003_0003, 5), 0x0005_0003);
    assert_eq!(read_watermark(0x0005_0003), 5);
    assert_eq!(read_watermark(0xFFF8_FFFF), 0);
    for level in 0..=7 {
        assert_eq!(read_watermark(write_watermark(0xA5A5_A5A5, level)), level);
    }
}

#[test]
fn fifo_is_first_in_first_out_and_holds_eight() {
    let mut f = Fifo::new();
    assert!(f.is_empty());
    assert_eq!(f.pop(), None);
    for b in 1..=8u8 {
        assert!(f.push(b));
    }
    assert!(f.is_full());
    assert_eq!(f.len(), 8);
    assert!(!f.push(9));
    assert_eq!(f.len(), 8);
    for b in 1..=8u8 {
        assert_eq!(f.pop(), Some(b));
    }
    assert!(f.is_empty());
    assert!(f.push(42));
    assert_eq!(f.pop(), Some(42));
    assert_eq!(f.pop(), None);
}

#[test]
fn uart_resets_to_zero() {
    let u = UartMmapRegs::new();
    assert_eq!(u.txctrl(), 0);
    assert_eq!(u.rxctrl(), 0);
    assert_eq!(u.ie(), 0);
    assert_eq!(u.div(), 0);
    assert_eq!(u.txdata(), 0);
    assert_eq!(u.ip(), 0);
    assert_eq!(u.tx_fifo_len(), 0);
    assert!(!u.interrupt_line());
}

#[test]
fn stop_bits_live_in_bit_1_of_txctrl() {
    let mut u = UartMmapRegs::new();
    assert_eq!(u.set_stopbits(2), Ok(()));
    assert_eq!(u.txctrl(), 0x2);
    assert_eq!(u.set_stopbits(1), Ok(()));
    assert_eq!(u.txctrl(), 0x0);
    u.enable_tx();
    assert_eq!(u.set_stopbits(2), Ok(()));
    assert_eq!(u.txctrl(), 0x3);
    assert_eq!(u.set_stopbits(0), Err(ConfigError::InvalidStopBits));
    assert_eq!(u.set_stopbits(3), Err(ConfigError::InvalidStopBits));
    assert_eq!(u.txctrl(), 0x3);
    u.disable_tx();
    assert_eq!(u.txctrl(), 0x2);
}

#[test]
fn fifo_depth_is_checked_and_lands_in_the_watermark_field() {
    let mut u = UartMmapRegs::new();
    assert_eq!(u.set_tx_fifo_depth(7), Ok(()));
    assert_eq!(u.txctrl(), 0x0007_0000);
    assert_eq!(u.set_tx_fifo_depth(3), Ok(()));
    assert_eq!(u.txctrl(), 0x0003_0000);
    assert_eq!(u.set_tx_fifo_depth(8), Err(ConfigError::InvalidFifoDepth));
    assert_eq!(u.txctrl(), 0x0003_0000);
    assert_eq!(u.set_rx_fifo_depth(6), Ok(()));
    assert_eq!(u.rxctrl(), 0x0006_0000);
    assert_eq!(u.set_rx_fifo_depth(255), Err(ConfigError::InvalidFifoDepth));
    assert_eq!(u.rxctrl(), 0x0006_0000);
}

#[test]
fn watermark_conditions_show_in_ip() {
    let mut u = UartMmapRegs::new();
    assert_eq!(u.ip(), 0);
    u.set_tx_fifo_depth(2).unwrap();
    assert_eq!(u.ip(), 1);
    assert!(!u.interrupt_line());
    u.enable_tx_wmark_interrupt();
    assert_eq!(u.ie(), 1);
    assert!(u.interrupt_line());
    u.write_txdata(b'a' as u32);
    assert_eq!(u.ip(), 1);
    u.write_txdata(b'b' as u32);
    assert_eq!(u.ip(), 0);
    assert!(!u.interrupt_line());
    u.enable_rx();
    u.enable_rx_wmark_interrupt();
    assert_eq!(u.ie(), 3);
    assert!(u.shift_in(7));
    assert_eq!(u.ip(), 2);
    assert!(u.interrupt_line());
    u.enable_tx();
    assert_eq!(u.shift_out(), Some(b'a'));
    assert_eq!(u.ip(), 3);
    assert_eq!(u.read_rxdata(), 7);
    assert_eq!(u.ip(), 1);
    assert_eq!(u.read_rxdata(), 0x8000_0000);
}

#[test]
fn the_transmitter_sends_only_while_enabled() {
    let mut u = UartMmapRegs::new();
    u.write_txdata(0x141);
    assert_eq!(u.tx_fifo_len(), 1);
    assert_eq!(u.shift_out(), None);
    u.enable_tx();
    assert_eq!(u.shift_out(), Some(0x41));
    assert_eq!(u.shift_out(), None);
    assert!(!u.shift_in(1));
}

#[test]
fn a_write_to_a_full_fifo_is_ignored() {
    let mut u = UartMmapRegs::new();
    u.enable_tx();
    for b in 0..8u32 {
        assert_eq!(u.txdata(), 0);
        u.write_txdata(b);
    }
    assert_eq!(u.txdata(), 0x8000_0000);
    u.write_txdata(99);
    assert_eq!(u.tx_fifo_len(), 8);
    assert!(!u.do_send_byte(100));
    for b in 0..8u8 {
        assert_eq!(u.shift_out(), Some(b));
    }
    assert_eq!(u.shift_out(), None);
    assert!(u.do_send_byte(100));
    assert_eq!(u.shift_out(), Some(100));
}

#[test]
fn instance_numbers_select_the_uart() {
    let mut uarts = UartRegisterFile::new();
    assert_eq!(uart_set_baud_divisor(&mut uarts, 0, 138), Ok(()));
    assert_eq!(uart_set_baud_divisor(&mut uarts, 1, 511), Ok(()));
    assert_eq!(uarts.uart0.div(), 138);
    assert_eq!(uarts.uart1.div(), 511);
    assert_eq!(uart_set_stopbits(&mut uarts, 1, 2), Ok(()));
    assert_eq!(uarts.uart0.txctrl(), 0);
    assert_eq!(uarts.uart1.txctrl(), 2);
    assert_eq!(uart_set_tx_fifo_depth(&mut uarts, 0, 7), Ok(()));
    assert_eq!(uarts.uart0.txctrl(), 0x0007_0000);
    assert_eq!(uart_enable_tx(&mut uarts, 0), Ok(()));
    assert_eq!(uarts.uart0.txctrl(), 0x0007_0001);
    assert_eq!(uart_disable_tx(&mut uarts, 0), Ok(()));
    assert_eq!(uarts.uart0.txctrl(), 0x0007_0000);
    assert_eq!(uart_enable_tx_wmark_interrupt(&mut uarts, 1), Ok(()));
    assert_eq!(uarts.uart1.ie(), 1);
    assert_eq!(uarts.uart0.ie(), 0);
    assert_eq!(uart_do_send_byte(&mut uarts, 1, b'x'), Ok(true));
    assert_eq!(uarts.uart1.tx_fifo_len(), 1);
    assert_eq!(uarts.uart0.tx_fifo_len(), 0);
}

#[test]
fn an_instance_number_that_names_no_uart_is_rejected() {
    let mut uarts = UartRegisterFile::new();
    assert_eq!(uart_set_baud_divisor(&mut uarts, 2, 138), Err(ConfigError::InvalidInstance));
    assert_eq!(uart_set_stopbits(&mut uarts, 2, 1), Err(ConfigError::InvalidInstance));
    assert_eq!(uart_set_stopbits(&mut uarts, 2, 9), Err(ConfigError::InvalidInstance));
    assert_eq!(uart_set_stopbits(&mut uarts, 0, 9), Err(ConfigError::InvalidStopBits));
    assert_eq!(uart_set_tx_fifo_depth(&mut uarts, 255, 1), Err(ConfigError::InvalidInstance));
    assert_eq!(uart_set_tx_fifo_depth(&mut uarts, 255, 9), Err(ConfigError::InvalidInstance));
    assert_eq!(uart_set_tx_fifo_depth(&mut uarts, 1, 9), Err(ConfigError::InvalidFifoDepth));
    assert_eq!(uart_do_send_byte(&mut uarts, 2, 0), Err(ConfigError::InvalidInstance));
    assert_eq!(uart_enable_tx(&mut uarts, 2), Err(ConfigError::InvalidInstance));
    assert_eq!(uart_disable_tx(&mut uarts, 2), Err(ConfigError::InvalidInstance));
    assert_eq!(uart_enable_tx_wmark_interrupt(&mut uarts, 2), Err(ConfigError::InvalidInstance));
    assert_eq!(uarts.uart0.txctrl(), 0);
    assert_eq!(uarts.uart1.txctrl(), 0);
}

#[test]
fn engine_needs_a_message_and_a_burst_that_fits() {
    assert!(UartTxEngine::new(Vec::new(), 5).is_none());
    assert!(UartTxEngine::new(vec![1, 2, 3], 0).is_none());
    assert!(UartTxEngine::new(vec![1, 2, 3], 8).is_none());
    assert!(UartTxEngine::new(vec![1, 2, 3], 7).is_some());
    assert!(UartTxEngine::new(vec![1], 1).is_some());
}

#[test]
fn refill_advances_by_the_burst_and_wraps_at_the_message_length() {
    let mut engine = UartTxEngine::welcome();
    assert_eq!(engine.message_len(), 21);
    assert_eq!(engine.burst_size(), 5);
    assert_eq!(engine.cursor(), 0);
    let mut uart = UartMmapRegs::new();
    uart.enable_tx();
    let mut sent = Vec::new();
    for expected in [5usize, 10, 15, 20, 0] {
        engine.refill(&mut uart);
        assert_eq!(engine.cursor(), expected);
        while let Some(b) = uart.shift_out() {
            sent.push(b);
        }
    }
    assert_eq!(sent, b"WelcometoLearnRISCV\n\r".to_vec());
    engine.refill(&mut uart);
    assert_eq!(engine.cursor(), 5);
    assert_eq!(uart.tx_fifo_len(), 5);
}

#[test]
fn a_pass_takes_the_length_over_the_burst_rounded_up() {
    for len in 1..=40usize {
        for burst in 1..=7usize {
            let message: Vec<u8> = (0..len).map(|i| i as u8).collect();
            let mut engine = UartTxEngine::new(message.clone(), burst).unwrap();
            let calls = (len + burst - 1) / burst;
            let mut sent = Vec::new();
            for k in 1..=calls {
                let bytes = engine.take_burst();
                assert!(!bytes.is_empty() && bytes.len() <= burst);
                sent.extend(bytes);
                if k < calls {
                    assert_eq!(engine.cursor(), k * burst);
                } else {
                    assert_eq!(engine.cursor(), 0);
                }
            }
            assert_eq!(sent, message);
        }
    }
}

#[test]
fn the_last_burst_of_a_pass_is_short() {
    let mut engine = UartTxEngine::new(vec![10, 11, 12, 13, 14, 15, 16], 3).unwrap();
    assert_eq!(engine.take_burst(), vec![10, 11, 12]);
    assert_eq!(engine.take_burst(), vec![13, 14, 15]);
    assert_eq!(engine.take_burst(), vec![16]);
    assert_eq!(engine.cursor(), 0);
    assert_eq!(engine.take_burst(), vec![10, 11, 12]);
}

#[test]
fn a_burst_into_a_crowded_fifo_loses_what_does_not_fit() {
    let mut engine = UartTxEngine::new(vec![1, 2, 3, 4, 5, 6], 6).unwrap();
    let mut uart = UartMmapRegs::new();
    uart.enable_tx();
    for b in [91u32, 92, 93, 94] {
        uart.write_txdata(b);
    }
    engine.refill(&mut uart);
    assert_eq!(engine.cursor(), 0);
    assert_eq!(uart.tx_fifo_len(), 8);
    let mut sent = Vec::new();
    while let Some(b) = uart.shift_out() {
        sent.push(b);
    }
    assert_eq!(sent, vec![91, 92, 93, 94, 1, 2, 3, 4]);
}

#[test]
fn burst_and_watermark_must_fit_together() {
    let engine = UartTxEngine::welcome();
    let mut uart = UartMmapRegs::new();
    for (level, fits) in [(0u8, true), (1, true), (4, true), (5, false), (7, false)] {
        uart.set_tx_fifo_depth(level).unwrap();
        assert_eq!(engine.fits_watermark(&uart), fits);
    }
}

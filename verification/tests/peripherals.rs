use hifive1_bsp::bits::{clear_bit, generate_mask, set_bit, test_bit, toggle_bit};
use hifive1_bsp::dio::{
    DioConfig, DioDriveStrength, DioFuncMode, DioLogic, DioMuxFunctions, DioPin, DioPullUp,
};
use hifive1_bsp::error::ConfigError;
use hifive1_bsp::fe310::gpio::{
    enable_inlet, enable_outlet, select_iof_func, set_as_dio, set_as_iof, set_high, set_low,
    GpioMmapRegs,
};
use hifive1_bsp::fe310::rtc::{
    clksel_32768k, disable, enable, get_rtc_counter, get_rtcs, is_cmp_reached, reset_rtc_counter,
    restart, set_rtc_cmp, set_scale, AonRtcRegs,
};
use hifive1_bsp::fe310::uart::UartRegisterFile;
use hifive1_bsp::gpio::Gpio;
use hifive1_bsp::pmp::{PmpRegion, PmpRegionAddrMatchMode, PmpRegionState};
use hifive1_bsp::rtc::{Rtc, RtcDate, RtcMonths, RtcTime};
use hifive1_bsp::serial::{
    Configure, DisableTx, DoSendByte, EnableTx, SerialDeviceType, UartBitCount, UartConfig,
    UartFifoDepth,
};
use hifive1_bsp::uart::{Uart, UartBaudRate, UartInstance, UartStopBits};

#[test]
fn single_bit_arithmetic() {
    assert_eq!(generate_mask(0), 1);
    assert_eq!(generate_mask(2), 0b100);
    assert_eq!(generate_mask(31), 0x8000_0000);
    assert_eq!(generate_mask(21), 0x0020_0000);
    assert_eq!(set_bit(0, 17), 0x0002_0000);
    assert_eq!(set_bit(0xFFFF_FFFF, 17), 0xFFFF_FFFF);
    assert_eq!(clear_bit(0xFFFF_FFFF, 2), 0xFFFF_FFFB);
    assert_eq!(clear_bit(0, 2), 0);
    assert_eq!(toggle_bit(0b1010, 1), 0b1000);
    assert_eq!(toggle_bit(0b1000, 1), 0b1010);
    assert!(test_bit(0x8000_0000, 31));
    assert!(!test_bit(0x7FFF_FFFF, 31));
}

#[test]
fn gpio_pin_operations_touch_one_bit_of_one_register() {
    let mut g = GpioMmapRegs::new();
    enable_inlet(&mut g, 23);
    enable_outlet(&mut g, 21);
    set_as_iof(&mut g, 17);
    select_iof_func(&mut g, 17, true);
    set_high(&mut g, 21);
    let mut expected = GpioMmapRegs::new();
    expected.iput_async_en = 1 << 23;
    expected.oput_en = 1 << 21;
    expected.iof_en = 1 << 17;
    expected.iof_sel = 1 << 17;
    expected.oput_val = 1 << 21;
    assert_eq!(g, expected);
    select_iof_func(&mut g, 17, false);
    set_as_dio(&mut g, 17);
    set_low(&mut g, 21);
    expected.iof_sel = 0;
    expected.iof_en = 0;
    expected.oput_val = 0;
    assert_eq!(g, expected);
}

#[test]
fn gpio_block_object() {
    let mut gpio = Gpio::init();
    assert_eq!(gpio.regs, GpioMmapRegs::new());
    gpio.configure_as_in(3);
    gpio.configure_as_out(21);
    gpio.configure_as_io(18);
    gpio.configure_as_io(23);
    assert_eq!(gpio.select_iof(18, 0), Ok(()));
    assert_eq!(gpio.select_iof(23, 1), Ok(()));
    gpio.write_high(21);
    assert_eq!(gpio.regs.iput_async_en, 1 << 3);
    assert_eq!(gpio.regs.oput_en, 1 << 21);
    assert_eq!(gpio.regs.iof_en, (1 << 18) | (1 << 23));
    assert_eq!(gpio.regs.iof_sel, 1 << 23);
    assert_eq!(gpio.regs.oput_val, 1 << 21);
    gpio.write_low(21);
    assert_eq!(gpio.regs.oput_val, 0);
    assert_eq!(gpio.select_iof(23, 2), Err(ConfigError::InvalidIoFunction));
    assert_eq!(gpio.select_iof(23, 255), Err(ConfigError::InvalidIoFunction));
    assert_eq!(gpio.regs.iof_sel, 1 << 23);
}

#[test]
fn digital_pin_follows_the_registers() {
    let p = DioPin { instance: 0, port: 0, pin_num: 21 };
    assert!(p.setup_pin());
    assert!(!DioPin { instance: 0, port: 0, pin_num: 32 }.setup_pin());
    assert!(!DioPin { instance: 1, port: 0, pin_num: 3 }.setup_pin());
    assert!(!DioPin { instance: 0, port: 1, pin_num: 3 }.setup_pin());
    let mut g = GpioMmapRegs::new();
    p.enable_pin_outlet(&mut g);
    p.set_pin_func_mode(&mut g, &DioFuncMode::Gpio);
    assert_eq!(p.get_pin_func_mode(&g), DioFuncMode::Gpio);
    p.set_pin_outlet_high(&mut g);
    assert_eq!(g.oput_val, 1 << 21);
    assert_eq!(p.read_pin_outlet_state(&g), DioLogic::H);
    p.toggle_pin_outlet_state(&mut g);
    assert_eq!(p.read_pin_outlet_state(&g), DioLogic::L);
    p.toggle_pin_outlet_state(&mut g);
    assert_eq!(g.oput_val, 1 << 21);
    p.set_pin_outlet_low(&mut g);
    assert_eq!(g.oput_val, 0);
    p.write_pin_outlet_state(&mut g, DioLogic::H);
    assert_eq!(g.oput_val, 1 << 21);
    p.write_pin_outlet_state(&mut g, DioLogic::L);
    assert_eq!(g.oput_val, 0);
    assert_eq!(p.read_pin_inlet_state(&g), DioLogic::L);
    g.iput_val = 1 << 21;
    assert_eq!(p.read_pin_inlet_state(&g), DioLogic::H);
    p.set_pin_dir_as_in(&mut g);
    assert_eq!((g.iput_async_en, g.oput_en), (1 << 21, 0));
    p.set_pin_dir_as_out(&mut g);
    assert_eq!((g.iput_async_en, g.oput_en), (0, 1 << 21));
    p.enable_pin_inlet(&mut g);
    assert_eq!((g.iput_async_en, g.oput_en), (1 << 21, 1 << 21));
    p.enable_pin_inlet_pullup(&mut g);
    assert_eq!(g.pue_async, 1 << 21);
    p.set_pin_func_mode(&mut g, &DioFuncMode::Mux);
    assert_eq!(p.get_pin_func_mode(&g), DioFuncMode::Mux);
    p.select_pin_iof_func(&mut g, true);
    assert_eq!(g.iof_sel, 1 << 21);
    p.select_pin_iof_func(&mut g, false);
    assert_eq!(g.iof_sel, 0);
}

#[test]
fn pin_configuration_record_is_applied() {
    let p = DioPin { instance: 0, port: 0, pin_num: 1 };
    let mut g = GpioMmapRegs::new();
    g.iof_en = 0xF0;
    g.oput_val = 0x3;
    let cfg = DioConfig {
        pin: p,
        mode: DioFuncMode::Mux,
        func: DioMuxFunctions::Pwm,
        pup: DioPullUp::Enabled,
        ds: DioDriveStrength::I20ma,
    };
    p.configure_pin(&mut g, cfg);
    assert_eq!((g.iof_en, g.iof_sel, g.pue_async, g.ds, g.oput_val), (0xF2, 2, 2, 2, 3));
    let cfg = DioConfig {
        pin: p,
        mode: DioFuncMode::Gpio,
        func: DioMuxFunctions::Uart,
        pup: DioPullUp::Disabled,
        ds: DioDriveStrength::I10ma,
    };
    p.configure_pin(&mut g, cfg);
    assert_eq!((g.iof_en, g.iof_sel, g.pue_async, g.ds, g.oput_val), (0xF0, 0, 0, 0, 3));
    assert!(DioMuxFunctions::Pwm.is_second());
    assert!(!DioMuxFunctions::Spi.is_second());
    assert!(!DioMuxFunctions::I2c.is_second());
}

#[test]
fn rtc_registers() {
    let mut r = AonRtcRegs::new();
    clksel_32768k(&mut r);
    assert_eq!((r.lfosccfg, r.lfextclksel), (1 << 30, 1));
    r.rtccounthi = 7;
    r.rtccountlo = 9;
    r.rtccompare = 11;
    assert_eq!(get_rtc_counter(&r), (7u64 << 32) | 9);
    reset_rtc_counter(&mut r);
    assert_eq!((r.rtccounthi, r.rtccountlo, r.rtccompare), (0, 0, 0));
    assert_eq!(set_scale(&mut r, 15), Ok(()));
    assert_eq!(r.rtccfg, 0xF);
    enable(&mut r);
    assert_eq!(r.rtccfg, 0x100F);
    assert_eq!(set_scale(&mut r, 3), Ok(()));
    assert_eq!(r.rtccfg, 0x1003);
    assert_eq!(set_scale(&mut r, 16), Err(ConfigError::InvalidScale));
    assert_eq!(r.rtccfg, 0x1003);
    disable(&mut r);
    assert_eq!(r.rtccfg, 0x3);
    set_rtc_cmp(&mut r, 1234);
    assert_eq!(r.rtccompare, 1234);
    r.rtcs = 77;
    assert_eq!(get_rtcs(&r), 77);
    assert!(!is_cmp_reached(&r));
    r.rtccfg |= 0x1000_0000;
    assert!(is_cmp_reached(&r));
    r.rtccounthi = u32::MAX;
    r.rtccountlo = u32::MAX;
    assert_eq!(get_rtc_counter(&r), u64::MAX);
    let mut r = AonRtcRegs::new();
    r.rtccounthi = 5;
    r.rtccompare = 5;
    restart(&mut r);
    assert_eq!(r.rtccfg, 0x1000);
    assert_eq!((r.lfosccfg, r.lfextclksel, r.rtccounthi, r.rtccompare), (1 << 30, 1, 0, 0));
}

#[test]
fn calendar_clock() {
    let mut regs = AonRtcRegs::new();
    regs.rtccountlo = 99;
    regs.rtccompare = 5;
    let mut rtc = Rtc::init(&mut regs);
    assert_eq!(regs.rtccfg, 0xF);
    assert_eq!((regs.rtccountlo, regs.rtccompare), (0, 0));
    assert_eq!((regs.lfosccfg, regs.lfextclksel), (1 << 30, 1));
    assert_eq!(rtc.date(), RtcDate { year: 1970, month: RtcMonths::January, week: 1, day: 1 });
    assert_eq!(rtc.time(), RtcTime { hours: 0, mins: 0, secs: 0 });
    assert_eq!(rtc.ticks(), 0);
    rtc.enable(&mut regs);
    assert_eq!(regs.rtccfg, 0x100F);
    regs.rtccountlo = 32768 * 3;
    regs.rtcs = 3;
    let date = RtcDate { year: 2023, month: RtcMonths::October, week: 40, day: 2 };
    rtc.set_date(&regs, date);
    assert_eq!(rtc.date(), date);
    assert_eq!(rtc.ticks(), 32768 * 3);
    regs.rtccounthi = 1;
    let time = RtcTime { hours: 6, mins: 27, secs: 0 };
    rtc.set_time(&regs, time);
    assert_eq!(rtc.time(), time);
    assert_eq!(rtc.date(), date);
    assert_eq!(rtc.ticks(), (1u64 << 32) + 32768 * 3);
    assert_eq!(rtc.secs_now(&regs), 3);
    regs.rtccounthi = 0;
    rtc.wait_in_secs(&mut regs, 10);
    assert_eq!(regs.rtccompare, 13);
    assert_eq!(rtc.ticks(), 32768 * 3);
    assert!(!is_cmp_reached(&regs));
}

#[test]
fn polled_uart() {
    let mut u = Uart::init(UartInstance::Ins1);
    assert_eq!(u.base_addr(), 0x1002_3000);
    assert_eq!(Uart::init(UartInstance::Ins0).base_addr(), 0x1001_3000);
    u.set_baud(UartBaudRate::BR115200);
    assert_eq!(u.regs().div(), 138);
    u.set_baud(UartBaudRate::BR31250);
    assert_eq!(u.regs().div(), 511);
    assert_eq!(UartBaudRate::BR115200.rate(), 115200);
    assert_eq!(UartBaudRate::BR31250.rate(), 31250);
    u.set_stopbits(UartStopBits::Two);
    assert_eq!(u.regs().txctrl(), 2);
    u.set_stopbits(UartStopBits::One);
    assert_eq!(u.regs().txctrl(), 0);
    assert_eq!(u.set_txfifosize(6), Ok(()));
    assert_eq!(u.set_rxfifosize(6), Ok(()));
    assert_eq!(u.set_txfifosize(8), Err(ConfigError::InvalidFifoDepth));
    assert_eq!(u.set_rxfifosize(8), Err(ConfigError::InvalidFifoDepth));
    u.enable_tx_channel();
    u.enable_rx_channel();
    assert_eq!(u.regs().txctrl(), 0x0006_0001);
    assert_eq!(u.regs().rxctrl(), 0x0006_0001);
    assert!(!u.txfifo_full());
    for data in [0x1u32, 0x3, 0x7, 0xf, 0x1f, 0x3f, 0x7f, 0x1ff] {
        u.transmit(data);
    }
    assert!(u.txfifo_full());
    u.transmit(0xAA);
    assert_eq!(u.regs().tx_fifo_len(), 8);
    assert_eq!(u.receive(), 0);
    assert!(u.rxfifo_empty());
}

#[test]
fn serial_uart_is_set_up_from_its_record() {
    let mut uarts = UartRegisterFile::new();
    let uart = hifive1_bsp::serial::Uart {
        instance: 1,
        config: UartConfig {
            baud: 31250,
            start_bits: UartBitCount::One,
            stop_bits: UartBitCount::Two,
            fifo: UartFifoDepth::Max,
        },
    };
    assert_eq!(uart.configure(&mut uarts), Ok(()));
    assert_eq!(uarts.uart1.div(), 511);
    assert_eq!(uarts.uart1.txctrl(), 0x0007_0002);
    assert_eq!(uarts.uart0.txctrl(), 0);
    assert_eq!(uart.enable_tx(&mut uarts), Ok(()));
    assert_eq!(uarts.uart1.txctrl(), 0x0007_0003);
    assert_eq!(uart.enable_tx_wmark_interrupt(&mut uarts), Ok(()));
    assert_eq!(uarts.uart1.ie(), 1);
    assert_eq!(uart.poll_tx_busy(&uarts), Ok(false));
    for b in 0..8u8 {
        assert_eq!(uart.do_send_byte(&mut uarts, b), Ok(true));
    }
    assert_eq!(uart.poll_tx_busy(&uarts), Ok(true));
    assert_eq!(uart.do_send_byte(&mut uarts, 8), Ok(false));
    assert_eq!(uarts.uart1.shift_out(), Some(0));
    assert_eq!(uart.do_send_byte(&mut uarts, 8), Ok(true));
    assert_eq!(uart.disable_tx(&mut uarts), Ok(()));
    assert_eq!(uarts.uart1.txctrl(), 0x0007_0002);
    assert_eq!(uarts.uart1.shift_out(), None);
    assert_eq!(UartBitCount::One.count(), 1);
    assert_eq!(UartFifoDepth::Min.level(), 1);
    assert_eq!(UartFifoDepth::Max.level(), 7);
    assert_ne!(SerialDeviceType::Uart, SerialDeviceType::Spi);
}

#[test]
fn serial_uart_rejects_what_the_hardware_cannot_do() {
    let mut uarts = UartRegisterFile::new();
    let config = UartConfig {
        baud: 0,
        start_bits: UartBitCount::One,
        stop_bits: UartBitCount::One,
        fifo: UartFifoDepth::Min,
    };
    let nowhere = hifive1_bsp::serial::Uart { instance: 2, config };
    assert_eq!(nowhere.configure(&mut uarts), Err(ConfigError::InvalidInstance));
    assert_eq!(nowhere.enable_tx(&mut uarts), Err(ConfigError::InvalidInstance));
    assert_eq!(nowhere.disable_tx(&mut uarts), Err(ConfigError::InvalidInstance));
    assert_eq!(nowhere.do_send_byte(&mut uarts, 1), Err(ConfigError::InvalidInstance));
    assert_eq!(nowhere.poll_tx_busy(&uarts), Err(ConfigError::InvalidInstance));
    assert_eq!(nowhere.enable_tx_wmark_interrupt(&mut uarts), Err(ConfigError::InvalidInstance));
    let stalled = hifive1_bsp::serial::Uart { instance: 0, config };
    assert_eq!(stalled.configure(&mut uarts), Err(ConfigError::InvalidBaud));
    assert_eq!(uarts.uart0.div(), 0);
    assert_eq!(uarts.uart0.txctrl(), 0);
}

#[test]
fn pmp_region_record() {
    let region = PmpRegion {
        start: 0x8000_0000,
        sz: 0x4000,
        amm: PmpRegionAddrMatchMode::NatAlignedPwrOfTwo,
        r: true,
        w: true,
        x: false,
        l: false,
        status: PmpRegionState::Created,
    };
    let copy = region;
    assert_eq!(copy, region);
    assert_ne!(PmpRegionAddrMatchMode::TopOfRange, PmpRegionAddrMatchMode::PmpDisabled);
    assert_ne!(PmpRegionState::Active, PmpRegionState::Disabled);
}

use esp_gdma::{
    Channel, ChipVariant, Direction, DmaError, DmaPeripheral, DmaPriority, Gdma, Peripheral,
    PeripheralKind, SystemExt, SystemPeripheral, TransferState,
};

fn engine(variant: ChipVariant) -> Gdma {
    let mut parts = SystemPeripheral::power_on(variant).split();
    Gdma::new(DmaPeripheral::power_on(variant), &mut parts.peripheral_clock_control).unwrap()
}

fn channel0<'a>(g: Gdma, tx: &'a mut [u32], rx: &'a mut [u32], burst: bool, p: DmaPriority) -> Channel<'a> {
    g.channel0.configure(burst, tx, rx, p)
}

#[test]
fn three_channel_variant_exposes_indices_0_to_2_only() {
    let g = engine(ChipVariant::Esp32c3);
    assert_eq!(g.channel_count(), 3);
    assert_eq!(g.channel0.channel_index(), 0);
    assert_eq!(g.channel1.channel_index(), 1);
    assert_eq!(g.channel2.channel_index(), 2);
    assert!(g.channel3.is_none());
    assert!(g.channel4.is_none());
}

#[test]
fn five_channel_variant_exposes_indices_0_to_4() {
    let g = engine(ChipVariant::Esp32s3);
    assert_eq!(g.channel_count(), 5);
    assert_eq!(g.channel3.as_ref().map(|c| c.channel_index()), Some(3));
    assert_eq!(g.channel4.as_ref().map(|c| c.channel_index()), Some(4));
}

#[test]
fn creators_have_distinct_indices() {
    let g = engine(ChipVariant::Esp32s3);
    let mut seen = vec![
        g.channel0.channel_index(),
        g.channel1.channel_index(),
        g.channel2.channel_index(),
        g.channel3.as_ref().unwrap().channel_index(),
        g.channel4.as_ref().unwrap().channel_index(),
    ];
    seen.sort();
    seen.dedup();
    assert_eq!(seen.len(), 5);
}

#[test]
fn fresh_engine_channels_read_clean() {
    for variant in [ChipVariant::Esp32c3, ChipVariant::Esp32s3] {
        let g = engine(variant);
        for dir in [Direction::Out, Direction::In] {
            assert!(!g.channel0.is_done(dir));
            assert!(!g.channel0.has_descriptor_error(dir));
            assert!(!g.channel2.is_done(dir));
            assert!(!g.channel2.has_descriptor_error(dir));
        }
        let mut tx = [0x10u32];
        let mut rx = [0x20u32];
        let ch = channel0(g, &mut tx, &mut rx, false, DmaPriority::Priority0);
        assert!(!ch.tx.is_done());
        assert!(!ch.tx.has_descriptor_error());
        assert!(!ch.rx.is_done());
        assert!(!ch.rx.has_descriptor_error());
    }
}

#[test]
fn engine_bring_up_enables_clock_and_pulses_reset() {
    let mut parts = SystemPeripheral::power_on(ChipVariant::Esp32c3).split();
    let g = Gdma::new(DmaPeripheral::power_on(ChipVariant::Esp32c3), &mut parts.peripheral_clock_control)
        .unwrap();
    assert!(parts.peripheral_clock_control.engine_started());
    let regs = parts.peripheral_clock_control.registers();
    assert_eq!(regs.perip_clk_en1, 0x40);
    assert_eq!(regs.perip_rst_en1, 0xffff_ffbf);
    assert_eq!(regs.perip_clk_en0, 0);
    assert_eq!(regs.perip_rst_en0, 0xffff_ffff);
    // the reset bit was released again; only the register clock stays on
    assert_eq!(g.registers.misc_conf, 0x8);
}

#[test]
fn configure_scenario_programs_both_directions() {
    let g = engine(ChipVariant::Esp32c3);
    let mut tx = [0x1000u32];
    let mut rx = [0x2000u32];
    let mut ch = channel0(g, &mut tx, &mut rx, true, DmaPriority::Priority5);
    assert_eq!(ch.tx.configure(), Ok(()));
    assert_eq!(ch.rx.configure(), Ok(()));
    let t = ch.tx.registers();
    let r = ch.rx.registers();
    assert_eq!(t.pri, 5);
    assert_eq!(r.pri, 5);
    // data burst and descriptor burst enables
    assert_eq!(t.conf0, 0x30);
    assert_eq!(r.conf0, 0x0c);
    assert_eq!(t.link, 0x1000);
    assert_eq!(r.link, 0x2000);
    assert!(ch.tx.burst_mode() && ch.rx.burst_mode());
    assert_eq!(ch.tx.priority(), DmaPriority::Priority5);
    assert_eq!(ch.rx.priority().value(), 5);
    assert_eq!(ch.tx.direction(), Direction::Out);
    assert_eq!(ch.rx.direction(), Direction::In);
    assert_eq!(ch.tx.channel_index(), 0);
}

#[test]
fn start_programs_peripheral_and_start_bit() {
    let g = engine(ChipVariant::Esp32c3);
    let mut tx = [0x1000u32];
    let mut rx = [0x2000u32];
    let mut ch = channel0(g, &mut tx, &mut rx, false, DmaPriority::Priority1);
    ch.tx.configure().unwrap();
    ch.rx.configure().unwrap();
    assert_eq!(ch.tx.start(3), Ok(()));
    assert_eq!(ch.rx.start(0x45), Ok(()));
    assert_eq!(ch.tx.registers().peri_sel, 3);
    // the select field is six bits wide
    assert_eq!(ch.rx.registers().peri_sel, 0x05);
    assert_eq!(ch.tx.registers().link, 0x20_1000);
    assert_eq!(ch.rx.registers().link, 0x40_2000);
    assert_eq!(ch.tx.state(), TransferState::Running);
}

#[test]
fn second_start_without_acknowledge_is_rejected() {
    let g = engine(ChipVariant::Esp32c3);
    let mut tx = [0x1000u32];
    let mut rx = [0x2000u32];
    let mut ch = channel0(g, &mut tx, &mut rx, false, DmaPriority::Priority2);
    ch.tx.configure().unwrap();
    assert_eq!(ch.tx.start(1), Ok(()));
    let before = ch.tx.registers();
    assert_eq!(ch.tx.start(1), Err(DmaError::Sequence));
    assert_eq!(ch.tx.registers(), before);
    assert_eq!(ch.tx.state(), TransferState::Running);
}

#[test]
fn start_before_configure_is_rejected() {
    let g = engine(ChipVariant::Esp32s3);
    let mut tx = [0x1000u32];
    let mut rx = [0x2000u32];
    let mut ch = channel0(g, &mut tx, &mut rx, false, DmaPriority::Priority2);
    let before = ch.rx.registers();
    assert_eq!(ch.rx.start(1), Err(DmaError::Sequence));
    assert_eq!(ch.rx.registers(), before);
    assert_eq!(ch.rx.state(), TransferState::Idle);
}

#[test]
fn configure_again_without_acknowledge_is_rejected() {
    let g = engine(ChipVariant::Esp32c3);
    let mut tx = [0x1000u32];
    let mut rx = [0x2000u32];
    let mut ch = channel0(g, &mut tx, &mut rx, false, DmaPriority::Priority2);
    ch.tx.configure().unwrap();
    assert_eq!(ch.tx.configure(), Err(DmaError::Sequence));
    ch.tx.start(0).unwrap();
    assert_eq!(ch.tx.configure(), Err(DmaError::Sequence));
    ch.tx.acknowledge();
    assert_eq!(ch.tx.configure(), Ok(()));
}

#[test]
fn empty_chain_is_rejected_without_register_writes() {
    let g = engine(ChipVariant::Esp32c3);
    let mut tx: [u32; 0] = [];
    let mut rx: [u32; 0] = [];
    let mut ch = channel0(g, &mut tx, &mut rx, true, DmaPriority::Priority3);
    let t = ch.tx.registers();
    let r = ch.rx.registers();
    assert_eq!(ch.tx.configure(), Err(DmaError::EmptyDescriptors));
    assert_eq!(ch.rx.configure(), Err(DmaError::EmptyDescriptors));
    assert_eq!(ch.tx.registers(), t);
    assert_eq!(ch.rx.registers(), r);
    assert_eq!(ch.tx.state(), TransferState::Idle);
}

#[test]
fn done_only_after_total_eof_then_acknowledge_clears() {
    for variant in [ChipVariant::Esp32c3, ChipVariant::Esp32s3] {
        let g = engine(variant);
        let mut tx = [0x1000u32, 0x1010];
        let mut rx = [0x2000u32];
        let mut ch = channel0(g, &mut tx, &mut rx, false, DmaPriority::Priority0);
        ch.tx.configure().unwrap();
        ch.tx.start(2).unwrap();
        assert!(!ch.tx.is_done());
        assert_eq!(ch.tx.poll(), (false, false));
        assert_eq!(ch.tx.state(), TransferState::Running);
        ch.tx.signal_total_eof();
        assert!(ch.tx.is_done());
        assert!(!ch.rx.is_done());
        assert_eq!(ch.tx.poll(), (true, false));
        assert_eq!(ch.tx.state(), TransferState::Complete);
        ch.tx.acknowledge();
        assert!(!ch.tx.is_done());
        assert_eq!(ch.tx.state(), TransferState::Idle);
    }
}

#[test]
fn status_flag_positions_follow_the_variant() {
    let g = engine(ChipVariant::Esp32c3);
    let mut tx = [0x1000u32];
    let mut rx = [0x2000u32];
    let mut ch = channel0(g, &mut tx, &mut rx, false, DmaPriority::Priority0);
    for d in [&mut ch.tx, &mut ch.rx] {
        d.configure().unwrap();
        d.start(0).unwrap();
        d.signal_total_eof();
    }
    assert_eq!(ch.tx.registers().int_raw, 0x100);
    assert_eq!(ch.rx.registers().int_raw, 0x2);
    let g = engine(ChipVariant::Esp32s3);
    let mut ch = channel0(g, &mut tx, &mut rx, false, DmaPriority::Priority0);
    ch.tx.configure().unwrap();
    ch.tx.start(0).unwrap();
    ch.tx.signal_total_eof();
    ch.tx.signal_descriptor_error();
    assert_eq!(ch.tx.registers().int_raw, 0xc);
}

#[test]
fn descriptor_error_is_reported_by_poll_and_cleared() {
    let g = engine(ChipVariant::Esp32s3);
    let mut tx = [0x1000u32];
    let mut rx = [0x2000u32];
    let mut ch = channel0(g, &mut tx, &mut rx, false, DmaPriority::Priority4);
    ch.rx.configure().unwrap();
    ch.rx.start(7).unwrap();
    ch.rx.signal_descriptor_error();
    assert!(ch.rx.has_descriptor_error());
    assert_eq!(ch.rx.poll(), (false, true));
    assert_eq!(ch.rx.state(), TransferState::Running);
    ch.rx.acknowledge();
    assert!(!ch.rx.has_descriptor_error());
}

#[test]
fn settings_stay_for_channel_lifetime() {
    let g = engine(ChipVariant::Esp32c3);
    let mut tx = [0x1000u32];
    let mut rx = [0x2000u32];
    let mut ch = channel0(g, &mut tx, &mut rx, true, DmaPriority::Priority9);
    for _ in 0..3 {
        ch.tx.configure().unwrap();
        ch.tx.start(1).unwrap();
        ch.tx.signal_total_eof();
        ch.tx.poll();
        ch.tx.acknowledge();
        let t = ch.tx.registers();
        assert_eq!(t.conf0 & 0x30, 0x30);
        assert_eq!(t.pri, 9);
        assert!(ch.tx.burst_mode());
        assert_eq!(ch.tx.priority(), DmaPriority::Priority9);
    }
}

#[test]
fn burst_off_leaves_enables_clear() {
    let g = engine(ChipVariant::Esp32s3);
    let mut tx = [0x1000u32];
    let mut rx = [0x2000u32];
    let ch = channel0(g, &mut tx, &mut rx, false, DmaPriority::Priority7);
    assert_eq!(ch.tx.registers().conf0, 0);
    assert_eq!(ch.rx.registers().conf0, 0);
    assert_eq!(ch.rx.registers().pri, 7);
    assert!(!ch.rx.burst_mode());
}

#[test]
fn every_channel_accepts_every_peripheral() {
    let g = engine(ChipVariant::Esp32c3);
    let mut tx = [0x1000u32];
    let mut rx = [0x2000u32];
    let ch = g.channel2.configure(false, &mut tx, &mut rx, DmaPriority::Priority0);
    assert!(ch.peripherals.accepts(PeripheralKind::Spi));
    assert!(ch.peripherals.accepts(PeripheralKind::Spi2));
    assert_eq!(ch.rx.channel_index(), 2);
}

#[test]
fn clock_enable_twice_same_as_once() {
    let mut once = SystemPeripheral::power_on(ChipVariant::Esp32s3).split();
    let mut twice = SystemPeripheral::power_on(ChipVariant::Esp32s3).split();
    once.peripheral_clock_control.enable(Peripheral::Usb);
    twice.peripheral_clock_control.enable(Peripheral::Usb);
    twice.peripheral_clock_control.enable(Peripheral::Usb);
    let a = once.peripheral_clock_control.registers();
    assert_eq!(a, twice.peripheral_clock_control.registers());
    assert_eq!(a.perip_clk_en0, 1 << 23);
    assert_eq!(a.perip_rst_en0, !(1u32 << 23));
}

#[test]
fn clock_enable_sets_clock_and_releases_reset() {
    let mut parts = SystemPeripheral::power_on(ChipVariant::Esp32c3).split();
    let pcc = &mut parts.peripheral_clock_control;
    pcc.enable(Peripheral::Spi2);
    pcc.enable(Peripheral::Ledc);
    let r = pcc.registers();
    assert_eq!(r.perip_clk_en0, (1 << 6) | (1 << 11));
    assert_eq!(r.perip_rst_en0, !((1u32 << 6) | (1 << 11)));
    assert_eq!(r.perip_clk_en1, 0);
}

#[test]
fn peripheral_availability_follows_the_variant() {
    let c3 = SystemPeripheral::power_on(ChipVariant::Esp32c3).split();
    let s3 = SystemPeripheral::power_on(ChipVariant::Esp32s3).split();
    assert!(!c3.peripheral_clock_control.is_available(Peripheral::Usb));
    assert!(s3.peripheral_clock_control.is_available(Peripheral::Usb));
    assert!(c3.peripheral_clock_control.is_available(Peripheral::ApbSarAdc));
    assert!(!s3.peripheral_clock_control.is_available(Peripheral::ApbSarAdc));
    assert!(!c3.peripheral_clock_control.is_available(Peripheral::I2cExt1));
    assert!(c3.peripheral_clock_control.is_available(Peripheral::Gdma));
}

#[test]
fn second_engine_over_one_clock_control_is_refused() {
    let mut parts = SystemPeripheral::power_on(ChipVariant::Esp32s3).split();
    let pcc = &mut parts.peripheral_clock_control;
    assert!(!pcc.engine_started());
    let first = Gdma::new(DmaPeripheral::power_on(ChipVariant::Esp32s3), pcc);
    assert!(first.is_ok());
    let before = pcc.registers();
    let second = Gdma::new(DmaPeripheral::power_on(ChipVariant::Esp32s3), pcc);
    assert!(matches!(second, Err(DmaError::EngineInUse)));
    assert_eq!(pcc.registers(), before);
}

#[test]
fn creator_programs_descriptor_base() {
    let g = engine(ChipVariant::Esp32c3);
    let mut tx = [0x1000u32, 0x1040];
    let mut rx = [0x2000u32];
    let ch = channel0(g, &mut tx, &mut rx, true, DmaPriority::Priority5);
    let t = ch.tx.registers();
    let r = ch.rx.registers();
    assert_eq!((t.pri, t.conf0, t.link), (5, 0x30, 0x1000));
    assert_eq!((r.pri, r.conf0, r.link), (5, 0x0c, 0x2000));
    assert_eq!(ch.tx.state(), TransferState::Idle);
}

#[test]
fn creator_leaves_empty_chain_link_untouched() {
    let g = engine(ChipVariant::Esp32s3);
    let mut tx: [u32; 0] = [];
    let mut rx = [0x2000u32];
    let ch = channel0(g, &mut tx, &mut rx, false, DmaPriority::Priority1);
    assert_eq!(ch.tx.registers().link, 0);
    assert_eq!(ch.rx.registers().link, 0x2000);
}

#[test]
fn events_outside_a_transfer_are_ignored() {
    let g = engine(ChipVariant::Esp32c3);
    let mut tx = [0x1000u32];
    let mut rx = [0x2000u32];
    let mut ch = channel0(g, &mut tx, &mut rx, false, DmaPriority::Priority0);
    ch.tx.signal_total_eof();
    ch.tx.signal_descriptor_error();
    assert!(!ch.tx.is_done());
    assert!(!ch.tx.has_descriptor_error());
    ch.tx.configure().unwrap();
    ch.tx.signal_total_eof();
    assert!(!ch.tx.is_done());
    ch.tx.start(1).unwrap();
    assert!(!ch.tx.is_done());
    ch.tx.signal_total_eof();
    assert!(ch.tx.is_done());
    ch.tx.acknowledge();
    ch.tx.signal_total_eof();
    assert!(!ch.tx.is_done());
    assert_eq!(ch.tx.registers().int_raw, 0);
}

#[test]
fn separate_dma_clock_entries_on_older_variants() {
    let mut esp32 = SystemPeripheral::power_on(ChipVariant::Esp32).split();
    assert!(esp32.dma.is_some());
    assert!(!esp32.peripheral_clock_control.is_available(Peripheral::Gdma));
    esp32.peripheral_clock_control.enable(Peripheral::Dma);
    assert_eq!(esp32.peripheral_clock_control.registers().perip_clk_en0, 1 << 22);
    let mut s2 = SystemPeripheral::power_on(ChipVariant::Esp32s2).split();
    s2.peripheral_clock_control.enable(Peripheral::Dma);
    let r = s2.peripheral_clock_control.registers();
    assert_eq!(r.perip_clk_en0, (1 << 22) | (1 << 27));
    assert_eq!(r.perip_rst_en0, !((1u32 << 22) | (1 << 27)));
    let c3 = SystemPeripheral::power_on(ChipVariant::Esp32c3).split();
    assert!(c3.dma.is_none());
    assert!(!c3.peripheral_clock_control.is_available(Peripheral::Dma));
}

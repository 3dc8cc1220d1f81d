use uart16550::{
    CharLen, FifoControl, InterruptIdentification, InterruptTypes, LineControl, LineStatus,
    ModemControl, ModemStatus, PendingInterrupt, TriggerLevel, PARITY,
};

fn levels() -> [(TriggerLevel, u8); 4] {
    [
        (TriggerLevel::_1, 0b00),
        (TriggerLevel::_4, 0b01),
        (TriggerLevel::_8, 0b10),
        (TriggerLevel::_14, 0b11),
    ]
}

#[test]
fn fifo_control_bytes() {
    assert_eq!(TriggerLevel::_1.and_reset().byte(), 0b0000_0111);
    assert_eq!(TriggerLevel::_4.and_reset().byte(), 0b0100_0111);
    assert_eq!(TriggerLevel::_8.and_reset().byte(), 0b1000_0111);
    assert_eq!(TriggerLevel::_14.and_reset().byte(), 0b1100_0111);
    assert_eq!(TriggerLevel::_1.without_reset().byte(), 0b0000_0001);
    assert_eq!(TriggerLevel::_14.without_reset().byte(), 0b1100_0001);
}

#[test]
fn trigger_level_round_trip() {
    for (level, code) in levels() {
        let a: FifoControl = level.and_reset();
        let w: FifoControl = level.without_reset();
        assert_eq!(a.byte() >> 6, code);
        assert_eq!(w.byte() >> 6, code);
        assert_eq!(a.byte() & 0b111, 0b111);
        assert_eq!(w.byte() & 0b111, 0b001);
    }
}

#[test]
fn interrupt_enable_bits() {
    let z = InterruptTypes::default();
    assert_eq!(z.byte(), 0);
    assert_eq!(z.enable_rda().byte(), 0b0001);
    assert_eq!(z.enable_thre().byte(), 0b0010);
    assert_eq!(z.enable_rls().byte(), 0b0100);
    assert_eq!(z.enable_ms().byte(), 0b1000);
    let all = z.enable_rda().enable_thre().enable_rls().enable_ms();
    assert_eq!(all.byte(), 0b1111);
    assert!(all.rda_enabled() && all.thre_enabled() && all.rls_enabled() && all.ms_enabled());
    let some = all.disable_thre();
    assert_eq!(some.byte(), 0b1101);
    assert!(some.rda_enabled() && !some.thre_enabled());
    assert_eq!(some.disable_rda().disable_rls().disable_ms().byte(), 0);
}

#[test]
fn interrupt_enable_idempotent_and_restoring() {
    for v in 0..=255u8 {
        let x = InterruptTypes::from_byte(v);
        assert_eq!(x.enable_rda().enable_rda(), x.enable_rda());
        assert_eq!(x.disable_ms().disable_ms(), x.disable_ms());
        if !x.thre_enabled() {
            assert_eq!(x.enable_thre().disable_thre(), x);
        }
        if x.rls_enabled() {
            assert_eq!(x.disable_rls().enable_rls(), x);
        }
    }
    // enabling then disabling a flag that was already set does not restore the byte
    let set = InterruptTypes::from_byte(0b0001);
    assert_eq!(set.enable_rda().disable_rda().byte(), 0);
}

#[test]
fn line_control_default_is_8n1() {
    let d = LineControl::default();
    assert_eq!(d.byte(), 0b11);
    assert_eq!(d.char_len(), CharLen::EIGHT);
    assert_eq!(d.parity(), PARITY::NONE);
    assert!(d.is_one_stop_bit());
    assert!(!d.dlr_access_enabled());
    assert_eq!(LineControl::config_8n1(), d);
}

#[test]
fn line_control_flag_bits() {
    let z = LineControl::from_byte(0);
    assert_eq!(z.enable_dlr_access().byte(), 0x80);
    assert_eq!(z.enable_break_control().byte(), 0x40);
    assert_eq!(z.enable_stick_parity().byte(), 0x20);
    assert_eq!(z.set_one_stop_bit(false).byte(), 0x04);
    assert_eq!(z.set_parity(PARITY::EVEN).byte(), 0x10);
    assert_eq!(z.set_parity(PARITY::ODD).byte(), 0x18);
    assert_eq!(z.set_char_len(CharLen::SEVEN).byte(), 0x02);
    let f = LineControl::from_byte(0xff);
    assert_eq!(f.disable_dlr_access().byte(), 0x7f);
    assert_eq!(f.disable_break_control().byte(), 0xbf);
    assert_eq!(f.disable_stick_parity().byte(), 0xdf);
    assert_eq!(f.set_one_stop_bit(true).byte(), 0xfb);
    assert_eq!(f.set_parity(PARITY::NONE).byte(), 0xe7);
    assert_eq!(f.set_char_len(CharLen::FIVE).byte(), 0xfc);
}

#[test]
fn line_control_round_trips_over_all_bytes() {
    let lens = [CharLen::FIVE, CharLen::SIX, CharLen::SEVEN, CharLen::EIGHT];
    let modes = [PARITY::NONE, PARITY::EVEN, PARITY::ODD];
    for v in 0..=255u8 {
        let l = LineControl::from_byte(v);
        for c in lens {
            assert_eq!(l.set_char_len(c).char_len(), c);
            assert_eq!(l.set_char_len(c).parity(), l.parity());
            assert_eq!(l.set_char_len(c).is_one_stop_bit(), l.is_one_stop_bit());
        }
        for p in modes {
            assert_eq!(l.set_parity(p).parity(), p);
            assert_eq!(l.set_parity(p).char_len(), l.char_len());
            assert_eq!(l.set_parity(p).dlr_access_enabled(), l.dlr_access_enabled());
        }
        for one in [true, false] {
            assert_eq!(l.set_one_stop_bit(one).is_one_stop_bit(), one);
            assert_eq!(l.set_one_stop_bit(one).char_len(), l.char_len());
        }
        for m in [
            l.enable_dlr_access(),
            l.disable_dlr_access(),
            l.enable_break_control(),
            l.disable_break_control(),
            l.enable_stick_parity(),
            l.disable_stick_parity(),
        ] {
            assert_eq!(m.char_len(), l.char_len());
            assert_eq!(m.parity(), l.parity());
            assert_eq!(m.is_one_stop_bit(), l.is_one_stop_bit());
        }
        assert_eq!(l.enable_break_control().enable_break_control(), l.enable_break_control());
        if !l.stick_parity_enabled() {
            assert_eq!(l.enable_stick_parity().disable_stick_parity(), l);
        }
    }
}

#[test]
fn reserved_parity_reads_as_none() {
    assert_eq!(LineControl::from_byte(0b0000_1000).parity(), PARITY::NONE);
    assert_eq!(LineControl::from_byte(0b0001_0000).parity(), PARITY::EVEN);
    assert_eq!(LineControl::from_byte(0b0001_1000).parity(), PARITY::ODD);
}

#[test]
fn interrupt_identification_table() {
    let table = [
        (0b0001u8, None),
        (0b0000, Some(PendingInterrupt::ModemStatus)),
        (0b0010, Some(PendingInterrupt::TransmitterHoldingRegisterEmpty)),
        (0b0100, Some(PendingInterrupt::ReceivedDataAvailable)),
        (0b1100, Some(PendingInterrupt::ReceivedDataTimeout)),
        (0b0110, Some(PendingInterrupt::ReceiverLineStatus)),
    ];
    for (code, cause) in table {
        for high in 0..16u8 {
            let id = InterruptIdentification::from_byte((high << 4) | code);
            assert!(id.has_documented_code());
            assert_eq!(id.pending_interrupts(), cause);
        }
    }
    for code in [0b0011u8, 0b0101, 0b0111, 0b1000, 0b1111] {
        assert!(!InterruptIdentification::from_byte(code).has_documented_code());
    }
}

#[test]
fn fifos_enabled_over_all_bytes() {
    for v in 0..=255u8 {
        let id = InterruptIdentification::from_byte(v);
        assert_eq!(id.fifos_enabled(), v & 0xc0 == 0xc0);
    }
    assert!(InterruptIdentification::from_byte(0xc1).fifos_enabled());
    assert!(!InterruptIdentification::from_byte(0x81).fifos_enabled());
}

#[test]
fn line_status_flags() {
    for v in 0..=255u8 {
        let s = LineStatus::from_byte(v);
        let flags = [
            s.is_data_ready(),
            s.is_overrun_error(),
            s.is_parity_error(),
            s.is_framing_error(),
            s.is_break_condition(),
            s.is_transmitter_fifo_empty(),
            s.is_transmitter_empty(),
            s.is_receiver_fifo_error(),
        ];
        for (k, f) in flags.iter().enumerate() {
            assert_eq!(*f, (v >> k) & 1 == 1);
        }
    }
    assert!(!LineStatus::default().is_data_ready());
}

#[test]
fn modem_registers_are_plain_bytes() {
    assert_eq!(ModemControl(0x0b).0, 0x0b);
    assert_eq!(ModemStatus::default().0, 0);
}

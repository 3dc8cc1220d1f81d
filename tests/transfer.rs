use uart16550::{
    Access, Bus, CharLen, InterruptTypes, LineControl, Reg, Register, SimulatedBlock,
    TriggerLevel, Uart16550, PARITY,
};

const READY: u8 = 0b0000_0001;
const THR_EMPTY: u8 = 0b0010_0000;

fn block<R: Register>(lcr: u8, status: Vec<u8>, rx: Vec<u8>) -> Uart16550<SimulatedBlock<R>> {
    Uart16550::new(SimulatedBlock::new([0, 0, 0, lcr, 0, 0, 0], status, rx))
}

#[test]
fn read_takes_exactly_the_ready_bytes() {
    let mut u = block::<u8>(0x03, vec![READY, READY | 0x60, READY, 0x60], vec![10, 20, 30, 40]);
    let mut buf = [0xeeu8; 6];
    let n = u.read(&mut buf);
    assert_eq!(n, 3);
    assert_eq!(buf, [10, 20, 30, 0xee, 0xee, 0xee]);
    let log = u.bus().accesses();
    assert_eq!(log.len(), 7);
    assert_eq!(log[0], Access::Load(Reg::Lsr, READY));
    assert_eq!(log[1], Access::Load(Reg::RbrThr, 10));
    assert_eq!(log[5], Access::Load(Reg::RbrThr, 30));
    assert_eq!(log[6], Access::Load(Reg::Lsr, 0x60));
}

#[test]
fn read_stops_when_the_buffer_is_full() {
    let mut u = block::<u32>(0x03, vec![READY; 5], vec![1, 2, 3, 4, 5]);
    let mut buf = [0u8; 2];
    assert_eq!(u.read(&mut buf), 2);
    assert_eq!(buf, [1, 2]);
    assert_eq!(u.bus().accesses().len(), 4);
}

#[test]
fn read_with_nothing_ready_takes_nothing() {
    let mut u = block::<u8>(0x03, vec![0], vec![9]);
    let mut buf = [7u8; 3];
    assert_eq!(u.read(&mut buf), 0);
    assert_eq!(buf, [7, 7, 7]);
    assert_eq!(u.bus().accesses().clone(), vec![Access::Load(Reg::Lsr, 0)]);
}

#[test]
fn read_into_empty_buffer_touches_nothing() {
    let mut u = block::<u8>(0x03, vec![READY], vec![9]);
    let mut buf: [u8; 0] = [];
    assert_eq!(u.read(&mut buf), 0);
    assert!(u.bus().accesses().is_empty());
}

#[test]
fn write_sends_exactly_while_holding_register_empty() {
    let mut u = block::<u32>(0x03, vec![THR_EMPTY, THR_EMPTY, READY], vec![]);
    let n = u.write(b"abcd");
    assert_eq!(n, 2);
    assert_eq!(
        u.bus().accesses().clone(),
        vec![
            Access::Load(Reg::Lsr, THR_EMPTY),
            Access::Store(Reg::RbrThr, b'a'),
            Access::Load(Reg::Lsr, THR_EMPTY),
            Access::Store(Reg::RbrThr, b'b'),
            Access::Load(Reg::Lsr, READY),
        ]
    );
}

#[test]
fn write_whole_buffer() {
    let mut u = block::<u8>(0x03, vec![THR_EMPTY; 3], vec![]);
    assert_eq!(u.write(&[1, 2, 3]), 3);
    assert_eq!(u.bus().accesses().len(), 6);
    assert_eq!(u.bus().stored_byte(Reg::RbrThr), 3);
}

#[test]
fn write_divisor_sequence() {
    let l = LineControl::config_8n1().set_parity(PARITY::ODD);
    for wide in [false, true] {
        let log = if wide {
            let mut u = block::<u32>(l.byte(), vec![], vec![]);
            u.write_divisor(0x0C00);
            assert_eq!(u.lcr().read(), l);
            u.bus().accesses().clone()
        } else {
            let mut u = block::<u8>(l.byte(), vec![], vec![]);
            u.write_divisor(0x0C00);
            assert_eq!(u.bus().stored_byte(Reg::Lcr), l.byte());
            assert_eq!(u.bus().stored_byte(Reg::RbrThr), 0x00);
            assert_eq!(u.bus().stored_byte(Reg::Ier), 0x0C);
            u.bus().accesses().clone()
        };
        assert_eq!(log[0], Access::Load(Reg::Lcr, l.byte()));
        assert_eq!(log[1], Access::Store(Reg::Lcr, l.byte() | 0x80));
        assert_eq!(log[2], Access::Store(Reg::RbrThr, 0x00));
        assert_eq!(log[3], Access::Store(Reg::Ier, 0x0C));
        assert_eq!(log[4], Access::Store(Reg::Lcr, l.byte()));
        assert!(!LineControl::from_byte(l.byte()).dlr_access_enabled());
    }
}

#[test]
fn write_divisor_splits_bytes() {
    let mut u = block::<u8>(0x1b, vec![], vec![]);
    u.write_divisor(0x1234);
    let log = u.bus().accesses();
    assert_eq!(log[2], Access::Store(Reg::RbrThr, 0x34));
    assert_eq!(log[3], Access::Store(Reg::Ier, 0x12));
}

#[test]
fn storage_width_transparency() {
    for v in 0..=255u8 {
        assert_eq!(<u8 as Register>::from_byte(v).val(), v);
        assert_eq!(<u32 as Register>::from_byte(v).val(), v);
        let mut a = block::<u8>(0, vec![], vec![]);
        let mut b = block::<u32>(0, vec![], vec![]);
        a.lcr().write(LineControl::from_byte(v));
        b.lcr().write(LineControl::from_byte(v));
        let la = a.lcr().read();
        let lb = b.lcr().read();
        assert_eq!(la, lb);
        assert_eq!(la.char_len(), lb.char_len());
        a.ier().write(InterruptTypes::from_byte(v));
        b.ier().write(InterruptTypes::from_byte(v));
        assert_eq!(a.ier().read(), b.ier().read());
        assert_eq!(a.bus().accesses(), b.bus().accesses());
    }
    assert_eq!(0x1234_5678u32.val(), 0x78);
}

#[test]
fn register_views_touch_their_registers() {
    let mut u = block::<u32>(0x03, vec![0x61], vec![]);
    u.iir_fcr().write(TriggerLevel::_8.and_reset());
    let id = u.iir_fcr().read();
    assert_eq!(id.byte(), 0x87);
    assert_eq!(u.lsr().read().byte(), 0x61);
    assert_eq!(u.lsr().read().byte(), 0);
    u.mcr().write(uart16550::ModemControl(0x0b));
    assert_eq!(u.mcr().read().0, 0x0b);
    assert_eq!(u.msr().read().0, 0);
    u.rbr_thr().tx_data(0x41);
    assert_eq!(u.rbr_thr().rx_data(), 0x41);
    u.lcr().write(LineControl::default().set_char_len(CharLen::SIX));
    assert_eq!(u.lcr().read().char_len(), CharLen::SIX);
    let log = u.into_bus().accesses().clone();
    assert_eq!(log[0], Access::Store(Reg::IirFcr, 0x87));
    assert_eq!(log[1], Access::Load(Reg::IirFcr, 0x87));
    assert_eq!(log.len(), 11);
}

#[test]
fn bus_trait_records_single_accesses() {
    let mut s: SimulatedBlock<u8> = SimulatedBlock::new([1, 2, 3, 4, 5, 6, 7], vec![], vec![]);
    assert_eq!(s.load(Reg::Msr), 7);
    s.store(Reg::Mcr, 9);
    assert_eq!(s.accesses().clone(), vec![Access::Load(Reg::Msr, 7), Access::Store(Reg::Mcr, 9)]);
    assert_eq!(Reg::Msr.index(), 6);
}

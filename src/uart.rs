//! The register block as a whole: a view of each register, divisor programming and
//! the byte transfer routines.
use vstd::prelude::*;

use crate::bits::{bit, lemma_set_bit, set_bit};
use crate::bus::{Access, Bus, Reg};
use crate::fcr::FifoControl;
use crate::ier::InterruptTypes;
use crate::iir::InterruptIdentification;
use crate::lcr::LineControl;
use crate::lsr::LineStatus;
use crate::mcr::ModemControl;
use crate::msr::ModemStatus;
use crate::width::Register;

verus! {

/// Receive buffer and transmit holding register.
#[allow(non_camel_case_types, clippy::upper_case_acronyms)]
pub struct RBR_THR<'a, B: Bus>(pub &'a mut B);

impl<'a, B: Bus> RBR_THR<'a, B> {
    /// Reads a received byte: one load.
    pub fn rx_data(self) -> (r: u8)
        ensures
            final(self.0).trace() == old(self.0).trace().push(Access::Load(Reg::RbrThr, r)),
    {
        self.0.load(Reg::RbrThr).val()
    }

    /// Writes a byte to transmit: one store.
    pub fn tx_data(self, val: u8)
        ensures
            final(self.0).trace() == old(self.0).trace().push(Access::Store(Reg::RbrThr, val)),
    {
        self.0.store(Reg::RbrThr, B::Word::from_byte(val))
    }
}

/// Interrupt enable register.
#[allow(non_camel_case_types, clippy::upper_case_acronyms)]
pub struct IER<'a, B: Bus>(pub &'a mut B);

impl<'a, B: Bus> IER<'a, B> {
    /// Writes the interrupt enable setting: one store.
    pub fn write(self, val: InterruptTypes)
        ensures
            final(self.0).trace() == old(self.0).trace().push(Access::Store(Reg::Ier, val@)),
    {
        self.0.store(Reg::Ier, B::Word::from_byte(val.byte()))
    }

    /// Reads the interrupt enable setting: one load.
    pub fn read(self) -> (r: InterruptTypes)
        ensures
            final(self.0).trace() == old(self.0).trace().push(Access::Load(Reg::Ier, r@)),
    {
        InterruptTypes::from_byte(self.0.load(Reg::Ier).val())
    }
}

/// Interrupt identification register on loads, FIFO control register on stores.
#[allow(non_camel_case_types, clippy::upper_case_acronyms)]
pub struct IIR_FCR<'a, B: Bus>(pub &'a mut B);

impl<'a, B: Bus> IIR_FCR<'a, B> {
    /// Writes the FIFO control setting: one store.
    pub fn write(self, val: FifoControl)
        ensures
            final(self.0).trace() == old(self.0).trace().push(Access::Store(Reg::IirFcr, val@)),
    {
        self.0.store(Reg::IirFcr, B::Word::from_byte(val.byte()))
    }

    /// Reads the interrupt identification: one load.
    pub fn read(self) -> (r: InterruptIdentification)
        ensures
            final(self.0).trace() == old(self.0).trace().push(Access::Load(Reg::IirFcr, r@)),
    {
        InterruptIdentification::from_byte(self.0.load(Reg::IirFcr).val())
    }
}

/// Line control register.
#[allow(non_camel_case_types, clippy::upper_case_acronyms)]
pub struct LCR<'a, B: Bus>(pub &'a mut B);

impl<'a, B: Bus> LCR<'a, B> {
    /// Writes the line control setting: one store.
    pub fn write(self, val: LineControl)
        ensures
            final(self.0).trace() == old(self.0).trace().push(Access::Store(Reg::Lcr, val@)),
    {
        self.0.store(Reg::Lcr, B::Word::from_byte(val.byte()))
    }

    /// Reads the line control setting: one load.
    pub fn read(self) -> (r: LineControl)
        ensures
            final(self.0).trace() == old(self.0).trace().push(Access::Load(Reg::Lcr, r@)),
    {
        LineControl::from_byte(self.0.load(Reg::Lcr).val())
    }
}

/// Modem control register.
#[allow(non_camel_case_types, clippy::upper_case_acronyms)]
pub struct MCR<'a, B: Bus>(pub &'a mut B);

impl<'a, B: Bus> MCR<'a, B> {
    /// Writes the modem control setting: one store.
    pub fn write(self, val: ModemControl)
        ensures
            final(self.0).trace() == old(self.0).trace().push(Access::Store(Reg::Mcr, val.0)),
    {
        self.0.store(Reg::Mcr, B::Word::from_byte(val.0))
    }

    /// Reads the modem control setting: one load.
    pub fn read(self) -> (r: ModemControl)
        ensures
            final(self.0).trace() == old(self.0).trace().push(Access::Load(Reg::Mcr, r.0)),
    {
        ModemControl(self.0.load(Reg::Mcr).val())
    }
}

/// Line status register.
#[allow(non_camel_case_types, clippy::upper_case_acronyms)]
pub struct LSR<'a, B: Bus>(pub &'a mut B);

impl<'a, B: Bus> LSR<'a, B> {
    /// Reads the line status: one load.
    pub fn read(self) -> (r: LineStatus)
        ensures
            final(self.0).trace() == old(self.0).trace().push(Access::Load(Reg::Lsr, r@)),
    {
        LineStatus::from_byte(self.0.load(Reg::Lsr).val())
    }
}

/// Modem status register.
#[allow(non_camel_case_types, clippy::upper_case_acronyms)]
pub struct MSR<'a, B: Bus>(pub &'a mut B);

impl<'a, B: Bus> MSR<'a, B> {
    /// Reads the modem status: one load.
    pub fn read(self) -> (r: ModemStatus)
        ensures
            final(self.0).trace() == old(self.0).trace().push(Access::Load(Reg::Msr, r.0)),
    {
        ModemStatus(self.0.load(Reg::Msr).val())
    }
}

/// Whether `a` is a load of the line status register that found bit `k` equal to `set`.
pub open spec fn is_status_load(a: Access, k: u8, set: bool) -> bool {
    match a {
        Access::Load(reg, s) => reg == Reg::Lsr && bit(s, k) == set,
        Access::Store(_, _) => false,
    }
}

/// Whether `ext` is one pass of the receive routine that took the bytes `got`, each
/// after a line status load that found data ready, and then, when `stopped`, made one
/// more line status load that found no data ready.
pub open spec fn is_receive_pass(ext: Seq<Access>, got: Seq<u8>, stopped: bool) -> bool {
    &&& ext.len() == 2 * got.len() + if stopped {
        1int
    } else {
        0int
    }
    &&& forall|i: int|
        0 <= i < got.len() ==> is_status_load(ext[2 * i], LineStatus::DATA_READY, true) && ext[2
            * i + 1] == Access::Load(Reg::RbrThr, #[trigger] got[i])
    &&& stopped ==> is_status_load(ext.last(), LineStatus::DATA_READY, false)
}

/// Whether `ext` is one pass of the transmit routine that sent the bytes `sent`, each
/// after a line status load that found the transmit holding register empty, and then,
/// when `stopped`, made one more line status load that found it not empty.
pub open spec fn is_transmit_pass(ext: Seq<Access>, sent: Seq<u8>, stopped: bool) -> bool {
    &&& ext.len() == 2 * sent.len() + if stopped {
        1int
    } else {
        0int
    }
    &&& forall|i: int|
        0 <= i < sent.len() ==> is_status_load(ext[2 * i], LineStatus::THR_EMPTY, true) && ext[2
            * i + 1] == Access::Store(Reg::RbrThr, #[trigger] sent[i])
    &&& stopped ==> is_status_load(ext.last(), LineStatus::THR_EMPTY, false)
}

/// The accesses that program `divisor` when the line control register holds `lcr`:
/// load the line control register, store it back with DLAB set, store the low then the
/// high byte of the divisor into the two latch halves, and restore the line control
/// register.
pub open spec fn divisor_accesses(lcr: u8, divisor: u16) -> Seq<Access> {
    seq![
        Access::Load(Reg::Lcr, lcr),
        Access::Store(Reg::Lcr, set_bit(lcr, LineControl::DLAB)),
        Access::Store(Reg::RbrThr, divisor as u8),
        Access::Store(Reg::Ier, (divisor >> 8u16) as u8),
        Access::Store(Reg::Lcr, lcr),
    ]
}

/// Whether the line status loads of a pass that moved `moved` bytes, and stopped when
/// `stopped`, read the bytes of `statuses` in turn.
pub open spec fn statuses_read(
    ext: Seq<Access>,
    moved: int,
    stopped: bool,
    statuses: Seq<u8>,
) -> bool {
    &&& moved + (if stopped {
        1int
    } else {
        0int
    }) <= statuses.len()
    &&& forall|i: int| 0 <= i < moved ==> #[trigger] ext[2 * i]
        == Access::Load(Reg::Lsr, statuses[i])
    &&& stopped ==> ext.last() == Access::Load(Reg::Lsr, statuses[moved])
}

/// Whether flag bit `k` is set in the first `n` bytes of `statuses` and clear in the
/// next one.
pub open spec fn ready_for_exactly(statuses: Seq<u8>, k: u8, n: int) -> bool {
    &&& 0 <= n < statuses.len()
    &&& forall|i: int| 0 <= i < n ==> bit(#[trigger] statuses[i], k)
    &&& !bit(statuses[n], k)
}

/// When the line status shows data ready for exactly the next `n` loads, a receive pass
/// into a buffer of at least `n` bytes takes exactly `n` bytes.
pub proof fn lemma_receive_takes_ready_count(
    ext: Seq<Access>,
    got: Seq<u8>,
    len: int,
    statuses: Seq<u8>,
    n: int,
)
    requires
        is_receive_pass(ext, got, got.len() < len),
        got.len() <= len,
        statuses_read(ext, got.len() as int, got.len() < len, statuses),
        ready_for_exactly(statuses, LineStatus::DATA_READY, n),
        n <= len,
    ensures
        got.len() == n,
{
    if got.len() < n {
        assert(bit(statuses[got.len() as int], LineStatus::DATA_READY));
    } else if got.len() > n {
        assert(ext[2 * n + 1] == Access::Load(Reg::RbrThr, got[n]));
        assert(ext[2 * n] == Access::Load(Reg::Lsr, statuses[n]));
    }
}

/// When the line status shows the transmit holding register empty for exactly the next
/// `n` loads, a transmit pass over a buffer of at least `n` bytes sends exactly `n`
/// bytes.
pub proof fn lemma_transmit_sends_ready_count(
    ext: Seq<Access>,
    sent: Seq<u8>,
    len: int,
    statuses: Seq<u8>,
    n: int,
)
    requires
        is_transmit_pass(ext, sent, sent.len() < len),
        sent.len() <= len,
        statuses_read(ext, sent.len() as int, sent.len() < len, statuses),
        ready_for_exactly(statuses, LineStatus::THR_EMPTY, n),
        n <= len,
    ensures
        sent.len() == n,
{
    if sent.len() < n {
        assert(bit(statuses[sent.len() as int], LineStatus::THR_EMPTY));
    } else if sent.len() > n {
        assert(ext[2 * n + 1] == Access::Store(Reg::RbrThr, sent[n]));
        assert(ext[2 * n] == Access::Load(Reg::Lsr, statuses[n]));
    }
}

/// Programming a divisor sets DLAB and keeps the rest of the line control byte while the
/// latch is written, stores the low and then the high byte of the divisor, which put
/// together give the divisor back, and ends by storing the line control byte it found.
pub proof fn lemma_divisor_accesses(lcr: u8, divisor: u16)
    ensures
        ({
            let a = divisor_accesses(lcr, divisor);
            &&& a.len() == 5
            &&& a[0] == Access::Load(Reg::Lcr, lcr)
            &&& a[4] == Access::Store(Reg::Lcr, lcr)
            &&& exists|dlab: u8|
                {
                    &&& a[1] == Access::Store(Reg::Lcr, dlab)
                    &&& bit(dlab, LineControl::DLAB)
                    &&& forall|i: u8| i < 8 && i != LineControl::DLAB ==> bit(dlab, i)
                        == bit(lcr, i)
                }
            &&& exists|lo: u8, hi: u8|
                {
                    &&& a[2] == Access::Store(Reg::RbrThr, lo)
                    &&& a[3] == Access::Store(Reg::Ier, hi)
                    &&& hi as int * 256 + lo as int == divisor as int
                }
        }),
{
    let dlab = set_bit(lcr, LineControl::DLAB);
    assert forall|i: u8| i < 8 && i != LineControl::DLAB implies bit(dlab, i) == bit(lcr, i) by {
        lemma_set_bit(lcr, LineControl::DLAB, i);
    }
    lemma_set_bit(lcr, LineControl::DLAB, LineControl::DLAB);
    let lo = divisor as u8;
    let hi = (divisor >> 8u16) as u8;
    assert(hi as int * 256 + lo as int == divisor as int) by (bit_vector)
        requires
            lo == divisor as u8,
            hi == (divisor >> 8u16) as u8,
    ;
    let a = divisor_accesses(lcr, divisor);
    assert(a[1] == Access::Store(Reg::Lcr, dlab));
    assert(a[2] == Access::Store(Reg::RbrThr, lo) && a[3] == Access::Store(Reg::Ier, hi));
}

/// A 16550 register block, reached through bus `B`.
pub struct Uart16550<B: Bus> {
    bus: B,
}

impl<B: Bus> Uart16550<B> {
    /// The bus that reaches the block.
    pub closed spec fn bus_of(&self) -> B {
        self.bus
    }

    /// Every access made to the block so far, oldest first.
    pub open spec fn trace(&self) -> Seq<Access> {
        self.bus_of().trace()
    }

    /// The block reached through `bus`.
    pub fn new(bus: B) -> (r: Self)
        ensures
            r.bus_of() == bus,
    {
        Uart16550 { bus }
    }

    /// The bus that reaches the block.
    pub fn bus(&self) -> (r: &B)
        ensures
            *r == self.bus_of(),
    {
        &self.bus
    }

    /// Gives the bus back.
    pub fn into_bus(self) -> (r: B)
        ensures
            r == self.bus_of(),
    {
        self.bus
    }

    /// The view of the receive buffer and transmit holding register.
    pub fn rbr_thr(&mut self) -> (r: RBR_THR<'_, B>)
        ensures
            *r.0 == old(self).bus_of(),
            final(self).bus_of() == *final(r.0),
    {
        RBR_THR(&mut self.bus)
    }

    /// The view of the interrupt enable register.
    pub fn ier(&mut self) -> (r: IER<'_, B>)
        ensures
            *r.0 == old(self).bus_of(),
            final(self).bus_of() == *final(r.0),
    {
        IER(&mut self.bus)
    }

    /// The view of the interrupt identification and FIFO control register.
    pub fn iir_fcr(&mut self) -> (r: IIR_FCR<'_, B>)
        ensures
            *r.0 == old(self).bus_of(),
            final(self).bus_of() == *final(r.0),
    {
        IIR_FCR(&mut self.bus)
    }

    /// The view of the line control register.
    pub fn lcr(&mut self) -> (r: LCR<'_, B>)
        ensures
            *r.0 == old(self).bus_of(),
            final(self).bus_of() == *final(r.0),
    {
        LCR(&mut self.bus)
    }

    /// The view of the modem control register.
    pub fn mcr(&mut self) -> (r: MCR<'_, B>)
        ensures
            *r.0 == old(self).bus_of(),
            final(self).bus_of() == *final(r.0),
    {
        MCR(&mut self.bus)
    }

    /// The view of the line status register.
    pub fn lsr(&mut self) -> (r: LSR<'_, B>)
        ensures
            *r.0 == old(self).bus_of(),
            final(self).bus_of() == *final(r.0),
    {
        LSR(&mut self.bus)
    }

    /// The view of the modem status register.
    pub fn msr(&mut self) -> (r: MSR<'_, B>)
        ensures
            *r.0 == old(self).bus_of(),
            final(self).bus_of() == *final(r.0),
    {
        MSR(&mut self.bus)
    }

    /// Writes `divisor` into the divisor latch and restores the line control register.
    ///
    /// Not atomic: nothing else may touch the line control, receive/transmit or
    /// interrupt enable register until it returns.
    pub fn write_divisor(&mut self, divisor: u16)
        ensures
            exists|lcr: u8| final(self).trace()
                == old(self).trace() + divisor_accesses(lcr, divisor),
    {
        let lcr = self.lcr().read();
        self.lcr().write(lcr.enable_dlr_access());
        self.bus.store(Reg::RbrThr, B::Word::from_byte(divisor as u8));
        self.bus.store(Reg::Ier, B::Word::from_byte((divisor >> 8) as u8));
        self.lcr().write(lcr);
        assert(self.trace() =~= old(self).trace() + divisor_accesses(lcr@, divisor));
    }

    /// Drains what is ready into `buf`: while the line status shows data ready, takes
    /// one received byte into the next position of `buf`; stops at the first status
    /// without data ready or when `buf` is full. Returns how many bytes it took.
    pub fn read(&mut self, buf: &mut [u8]) -> (count: usize)
        ensures
            count <= old(buf)@.len(),
            final(buf)@.len() == old(buf)@.len(),
            final(buf)@.skip(count as int) == old(buf)@.skip(count as int),
            old(self).trace().is_prefix_of(final(self).trace()),
            is_receive_pass(
                final(self).trace().skip(old(self).trace().len() as int),
                final(buf)@.take(count as int),
                count < old(buf)@.len(),
            ),
    {
        let ghost start = self.trace();
        let ghost ext = Seq::<Access>::empty();
        let mut count: usize = 0;
        let mut stopped = false;
        while count < buf.len() && !stopped
            invariant
                count <= buf@.len(),
                buf@.len() == old(buf)@.len(),
                forall|i: int| count <= i < buf@.len() ==> buf@[i] == old(buf)@[i],
                self.trace() == start + ext,
                is_receive_pass(ext, buf@.take(count as int), stopped),
                stopped ==> count < buf@.len(),
            decreases buf@.len() - count + if stopped {
                0int
            } else {
                1int
            },
        {
            let status = self.lsr().read();
            proof {
                assert(self.trace() =~= start + ext.push(Access::Load(Reg::Lsr, status@)));
            }
            if status.is_data_ready() {
                let b = self.rbr_thr().rx_data();
                let ghost got = buf@.take(count as int);
                buf[count] = b;
                proof {
                    let next = ext.push(Access::Load(Reg::Lsr, status@)).push(
                        Access::Load(Reg::RbrThr, b),
                    );
                    assert(self.trace() =~= start + next);
                    assert(buf@.take(count + 1) =~= got.push(b));
                    assert forall|i: int| 0 <= i < count + 1 implies is_status_load(
                        next[2 * i],
                        LineStatus::DATA_READY,
                        true,
                    ) && next[2 * i + 1] == Access::Load(
                        Reg::RbrThr,
                        #[trigger] got.push(b)[i],
                    ) by {
                        if i < count {
                            assert(got[i] == got.push(b)[i]);
                        }
                    }
                    ext = next;
                }
                count = count + 1;
            } else {
                proof {
                    ext = ext.push(Access::Load(Reg::Lsr, status@));
                }
                stopped = true;
            }
        }
        proof {
            assert(self.trace().skip(start.len() as int) =~= ext);
            assert(buf@.skip(count as int) =~= old(buf)@.skip(count as int));
        }
        count
    }

    /// Sends what can be sent from `buf`: while the line status shows the transmit
    /// holding register empty, writes the next byte of `buf` to it; stops at the first
    /// status without it empty or when `buf` is used up. Returns how many bytes it sent.
    pub fn write(&mut self, buf: &[u8]) -> (count: usize)
        ensures
            count <= buf@.len(),
            old(self).trace().is_prefix_of(final(self).trace()),
            is_transmit_pass(
                final(self).trace().skip(old(self).trace().len() as int),
                buf@.take(count as int),
                count < buf@.len(),
            ),
    {
        let ghost start = self.trace();
        let ghost ext = Seq::<Access>::empty();
        let mut count: usize = 0;
        let mut stopped = false;
        while count < buf.len() && !stopped
            invariant
                count <= buf@.len(),
                self.trace() == start + ext,
                is_transmit_pass(ext, buf@.take(count as int), stopped),
                stopped ==> count < buf@.len(),
            decreases buf@.len() - count + if stopped {
                0int
            } else {
                1int
            },
        {
            let status = self.lsr().read();
            proof {
                assert(self.trace() =~= start + ext.push(Access::Load(Reg::Lsr, status@)));
            }
            if status.is_transmitter_fifo_empty() {
                let b = buf[count];
                self.rbr_thr().tx_data(b);
                proof {
                    let sent = buf@.take(count as int);
                    let next = ext.push(Access::Load(Reg::Lsr, status@)).push(
                        Access::Store(Reg::RbrThr, b),
                    );
                    assert(self.trace() =~= start + next);
                    assert(buf@.take(count + 1) =~= sent.push(b));
                    assert forall|i: int| 0 <= i < count + 1 implies is_status_load(
                        next[2 * i],
                        LineStatus::THR_EMPTY,
                        true,
                    ) && next[2 * i + 1] == Access::Store(
                        Reg::RbrThr,
                        #[trigger] sent.push(b)[i],
                    ) by {
                        if i < count {
                            assert(sent[i] == sent.push(b)[i]);
                        }
                    }
                    ext = next;
                }
                count = count + 1;
            } else {
                proof {
                    ext = ext.push(Access::Load(Reg::Lsr, status@));
                }
                stopped = true;
            }
        }
        proof {
            assert(self.trace().skip(start.len() as int) =~= ext);
        }
        count
    }
}

} // verus!

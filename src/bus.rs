//! Access to the register block: which register each load or store touches, the
//! ghost record of every access made, and a simulated block that keeps that record.
use vstd::prelude::*;

use crate::width::Register;

verus! {

/// One of the seven registers of the block, in address order.
#[derive(Clone, Copy, PartialEq, Eq, Structural, Debug)]
pub enum Reg {
    /// Receive buffer / transmit holding register (divisor latch low byte while DLAB
    /// is set): offset 0.
    RbrThr,
    /// Interrupt enable register (divisor latch high byte while DLAB is set): offset 1.
    Ier,
    /// Interrupt identification register on loads, FIFO control register on stores:
    /// offset 2.
    IirFcr,
    /// Line control register: offset 3.
    Lcr,
    /// Modem control register: offset 4.
    Mcr,
    /// Line status register: offset 5.
    Lsr,
    /// Modem status register: offset 6.
    Msr,
}

impl Reg {
    /// Position of the register in the block, counted in cells.
    pub open spec fn spec_index(self) -> usize {
        match self {
            Reg::RbrThr => 0,
            Reg::Ier => 1,
            Reg::IirFcr => 2,
            Reg::Lcr => 3,
            Reg::Mcr => 4,
            Reg::Lsr => 5,
            Reg::Msr => 6,
        }
    }

    /// Position of the register in the block, counted in cells; its byte offset is this
    /// times the cell stride (4 for the 32-bit layout: 0x00, 0x04, ..., 0x18).
    pub fn index(self) -> (r: usize)
        ensures
            r == self.spec_index(),
            r < 7,
    {
        match self {
            Reg::RbrThr => 0,
            Reg::Ier => 1,
            Reg::IirFcr => 2,
            Reg::Lcr => 3,
            Reg::Mcr => 4,
            Reg::Lsr => 5,
            Reg::Msr => 6,
        }
    }
}

/// One access to the register block, with the significant byte loaded or stored.
#[derive(Clone, Copy, PartialEq, Eq, Structural, Debug)]
pub enum Access {
    /// A single load of a register that read this byte.
    Load(Reg, u8),
    /// A single store to a register that wrote this byte.
    Store(Reg, u8),
}

/// The capability to touch one register block. Every load and store is one access
/// to the hardware, and `trace` records them in the order they were made.
pub trait Bus {
    /// Storage word of each register cell.
    type Word: Register;

    /// Every access made through this bus so far, oldest first.
    ///
    /// Every implementation with a proof defines it: the empty default cannot meet the
    /// contracts of `load` and `store`. The default lets a bus over real hardware, which
    /// keeps no record and has no proof, leave it out.
    closed spec fn trace(&self) -> Seq<Access> {
        Seq::empty()
    }

    /// Loads the word of register `reg`: one access.
    fn load(&mut self, reg: Reg) -> (w: Self::Word)
        ensures
            final(self).trace() == old(self).trace().push(Access::Load(reg, w.spec_val())),
    ;

    /// Stores word `w` into register `reg`: one access.
    fn store(&mut self, reg: Reg, w: Self::Word)
        ensures
            final(self).trace() == old(self).trace().push(Access::Store(reg, w.spec_val())),
    ;
}

/// A register block held in memory, for running the routines away from hardware.
///
/// Each register is one stored word. Loads of the line status register return the
/// bytes of `line_status` in turn, and loads of the receive buffer the bytes of
/// `received`, before falling back to the stored word; every access is logged.
pub struct SimulatedBlock<R: Register> {
    words: [R; 7],
    line_status: Vec<u8>,
    status_taken: usize,
    received: Vec<u8>,
    received_taken: usize,
    log: Vec<Access>,
}

impl<R: Register> SimulatedBlock<R> {
    /// The byte stored in register `reg`.
    pub closed spec fn stored(&self, reg: Reg) -> u8 {
        self.words@[reg.spec_index() as int].spec_val()
    }

    /// A block whose registers store the bytes of `initial`, in address order, whose
    /// line status loads return the bytes of `line_status` in turn and whose receive
    /// buffer loads return the bytes of `received` in turn. No access is logged yet.
    pub fn new(initial: [u8; 7], line_status: Vec<u8>, received: Vec<u8>) -> (r: Self)
        ensures
            r.trace() == Seq::<Access>::empty(),
            forall|reg: Reg| #[trigger] r.stored(reg) == initial@[reg.spec_index() as int],
    {
        let words = [
            R::from_byte(initial[0]),
            R::from_byte(initial[1]),
            R::from_byte(initial[2]),
            R::from_byte(initial[3]),
            R::from_byte(initial[4]),
            R::from_byte(initial[5]),
            R::from_byte(initial[6]),
        ];
        let r = SimulatedBlock {
            words,
            line_status,
            status_taken: 0,
            received,
            received_taken: 0,
            log: Vec::new(),
        };
        assert(forall|reg: Reg| #[trigger] r.stored(reg) == initial@[reg.spec_index() as int]);
        r
    }

    /// The accesses made so far, oldest first.
    pub fn accesses(&self) -> (r: &Vec<Access>)
        ensures
            r@ == self.trace(),
    {
        &self.log
    }

    /// The byte stored in register `reg`.
    pub fn stored_byte(&self, reg: Reg) -> (r: u8)
        ensures
            r == self.stored(reg),
    {
        self.words[reg.index()].val()
    }
}

impl<R: Register> Bus for SimulatedBlock<R> {
    type Word = R;

    closed spec fn trace(&self) -> Seq<Access> {
        self.log@
    }

    fn load(&mut self, reg: Reg) -> (w: R) {
        let w = if reg == Reg::Lsr && self.status_taken < self.line_status.len() {
            let b = self.line_status[self.status_taken];
            self.status_taken = self.status_taken + 1;
            R::from_byte(b)
        } else if reg == Reg::RbrThr && self.received_taken < self.received.len() {
            let b = self.received[self.received_taken];
            self.received_taken = self.received_taken + 1;
            R::from_byte(b)
        } else {
            self.words[reg.index()]
        };
        self.log.push(Access::Load(reg, w.val()));
        w
    }

    fn store(&mut self, reg: Reg, w: R) {
        self.words[reg.index()] = w;
        self.log.push(Access::Store(reg, w.val()));
    }
}

} // verus!

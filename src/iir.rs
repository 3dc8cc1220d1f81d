//! The interrupt identification register: the cause of the pending interrupt and
//! whether the FIFOs are enabled.
use vstd::prelude::*;

use crate::bits::{bit, field2, lemma_field2};

verus! {

/// Interrupt identification: the byte read from the interrupt identification register.
#[derive(Clone, Copy, PartialEq, Eq, Structural, Debug)]
pub struct InterruptIdentification(u8);

impl View for InterruptIdentification {
    type V = u8;

    closed spec fn view(&self) -> u8 {
        self.0
    }
}

/// Cause of a pending interrupt.
#[derive(Clone, Copy, PartialEq, Eq, Structural, Debug)]
pub enum PendingInterrupt {
    /// Receiver line status: identification code `0b0110`.
    ReceiverLineStatus,
    /// Received data available: identification code `0b0100`.
    ReceivedDataAvailable,
    /// Received data timeout: identification code `0b1100`.
    ReceivedDataTimeout,
    /// Transmitter holding register empty: identification code `0b0010`.
    TransmitterHoldingRegisterEmpty,
    /// Modem status: identification code `0b0000`.
    ModemStatus,
}

/// The identification code: the low four bits of the register.
pub open spec fn cause_code(v: u8) -> u8 {
    v & 0b1111u8
}

/// Whether `code` is one of the six identification codes that the hardware reports.
pub open spec fn is_documented_code(code: u8) -> bool {
    code == 0b0001 || code == 0b0000 || code == 0b0010 || code == 0b0100 || code == 0b1100
        || code == 0b0110
}

/// The cause that a documented identification code names; `0b0001` means that no
/// interrupt is pending.
pub open spec fn cause_of(code: u8) -> Option<PendingInterrupt> {
    if code == 0b0110 {
        Some(PendingInterrupt::ReceiverLineStatus)
    } else if code == 0b0100 {
        Some(PendingInterrupt::ReceivedDataAvailable)
    } else if code == 0b1100 {
        Some(PendingInterrupt::ReceivedDataTimeout)
    } else if code == 0b0010 {
        Some(PendingInterrupt::TransmitterHoldingRegisterEmpty)
    } else if code == 0b0000 {
        Some(PendingInterrupt::ModemStatus)
    } else {
        None
    }
}

impl InterruptIdentification {
    /// The identification whose byte is `v`.
    pub fn from_byte(v: u8) -> (r: Self)
        ensures
            r@ == v,
    {
        Self(v)
    }

    /// The byte of this identification.
    pub fn byte(self) -> (r: u8)
        ensures
            r == self@,
    {
        self.0
    }

    /// Whether the identification code is one that the hardware reports; any other
    /// code means the register block is not a 16550.
    pub fn has_documented_code(&self) -> (r: bool)
        ensures
            r == is_documented_code(cause_code(self@)),
    {
        let code = self.0 & 0b1111;
        code == 0b0001 || code == 0b0000 || code == 0b0010 || code == 0b0100 || code == 0b1100
            || code == 0b0110
    }

    /// The cause of the pending interrupt, or `None` when no interrupt is pending.
    pub fn pending_interrupts(&self) -> (r: Option<PendingInterrupt>)
        requires
            is_documented_code(cause_code(self@)),
        ensures
            r == cause_of(cause_code(self@)),
    {
        match self.0 & 0b1111 {
            0b0110 => Some(PendingInterrupt::ReceiverLineStatus),
            0b0100 => Some(PendingInterrupt::ReceivedDataAvailable),
            0b1100 => Some(PendingInterrupt::ReceivedDataTimeout),
            0b0010 => Some(PendingInterrupt::TransmitterHoldingRegisterEmpty),
            0b0000 => Some(PendingInterrupt::ModemStatus),
            _ => None,
        }
    }

    /// Whether the FIFOs are enabled: bits 7 and 6 are both set.
    pub fn fifos_enabled(&self) -> (r: bool)
        ensures
            r == (bit(self@, 7) && bit(self@, 6)),
    {
        proof {
            lemma_field2(self.0, 6);
        }
        (self.0 >> 6) & 0b11 == 0b11
    }
}

} // verus!

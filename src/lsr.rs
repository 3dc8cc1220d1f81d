//! The line status register: eight independent flags.
use vstd::prelude::*;

use crate::bits::bit;

verus! {

/// Line status: the byte read from the line status register.
#[derive(Clone, Copy, PartialEq, Eq, Structural, Debug)]
pub struct LineStatus(u8);

impl View for LineStatus {
    type V = u8;

    closed spec fn view(&self) -> u8 {
        self.0
    }
}

impl Default for LineStatus {
    /// No flag set.
    fn default() -> (r: Self)
        ensures
            r@ == 0,
    {
        Self(0)
    }
}

impl LineStatus {
    /// Bit set when received data is ready in the receive buffer or FIFO.
    pub const DATA_READY: u8 = 0;

    /// Bit set when an overrun error occurred.
    pub const OVERRUN_ERROR: u8 = 1;

    /// Bit set when a parity error occurred.
    pub const PARITY_ERROR: u8 = 2;

    /// Bit set when a framing error occurred.
    pub const FRAMING_ERROR: u8 = 3;

    /// Bit set when a break condition was received.
    pub const BREAK_INTERRUPT: u8 = 4;

    /// Bit set when the transmitter holding register (or FIFO) is empty.
    pub const THR_EMPTY: u8 = 5;

    /// Bit set when the transmitter holding register (or FIFO) and the shift register are
    /// both empty.
    pub const TRANSMITTER_EMPTY: u8 = 6;

    /// Bit set when the receive FIFO holds at least one character with an error.
    pub const RX_FIFO_ERROR: u8 = 7;

    /// The status whose byte is `v`.
    pub fn from_byte(v: u8) -> (r: Self)
        ensures
            r@ == v,
    {
        Self(v)
    }

    /// The byte of this status.
    pub fn byte(self) -> (r: u8)
        ensures
            r == self@,
    {
        self.0
    }

    /// Whether received data is ready in the receive buffer or FIFO.
    pub fn is_data_ready(&self) -> (r: bool)
        ensures
            r == bit(self@, Self::DATA_READY),
    {
        (self.0 >> Self::DATA_READY) & 1 == 1
    }

    /// Whether an overrun error occurred.
    pub fn is_overrun_error(&self) -> (r: bool)
        ensures
            r == bit(self@, Self::OVERRUN_ERROR),
    {
        (self.0 >> Self::OVERRUN_ERROR) & 1 == 1
    }

    /// Whether a parity error occurred.
    pub fn is_parity_error(&self) -> (r: bool)
        ensures
            r == bit(self@, Self::PARITY_ERROR),
    {
        (self.0 >> Self::PARITY_ERROR) & 1 == 1
    }

    /// Whether a framing error occurred.
    pub fn is_framing_error(&self) -> (r: bool)
        ensures
            r == bit(self@, Self::FRAMING_ERROR),
    {
        (self.0 >> Self::FRAMING_ERROR) & 1 == 1
    }

    /// Whether a break condition was received.
    pub fn is_break_condition(&self) -> (r: bool)
        ensures
            r == bit(self@, Self::BREAK_INTERRUPT),
    {
        (self.0 >> Self::BREAK_INTERRUPT) & 1 == 1
    }

    /// Whether the transmitter holding register (or FIFO) is empty.
    pub fn is_transmitter_fifo_empty(&self) -> (r: bool)
        ensures
            r == bit(self@, Self::THR_EMPTY),
    {
        (self.0 >> Self::THR_EMPTY) & 1 == 1
    }

    /// Whether the transmitter holding register (or FIFO) and the shift register are both empty.
    pub fn is_transmitter_empty(&self) -> (r: bool)
        ensures
            r == bit(self@, Self::TRANSMITTER_EMPTY),
    {
        (self.0 >> Self::TRANSMITTER_EMPTY) & 1 == 1
    }

    /// Whether the receive FIFO holds at least one character with an error.
    pub fn is_receiver_fifo_error(&self) -> (r: bool)
        ensures
            r == bit(self@, Self::RX_FIFO_ERROR),
    {
        (self.0 >> Self::RX_FIFO_ERROR) & 1 == 1
    }
}

} // verus!

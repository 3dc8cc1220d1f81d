//! The FIFO control register: receive trigger level, FIFO enable and FIFO resets.
use vstd::prelude::*;

use crate::bits::{bit, field2};

verus! {

/// FIFO control setting: the byte written to the FIFO control register.
#[derive(Clone, Copy, PartialEq, Eq, Structural, Debug)]
pub struct FifoControl(u8);

impl View for FifoControl {
    type V = u8;

    closed spec fn view(&self) -> u8 {
        self.0
    }
}

/// Receive trigger level: the data-ready interrupt is raised once the receive FIFO
/// holds at least this many bytes. Held in the two-bit field at bit 6.
#[derive(Clone, Copy, PartialEq, Eq, Structural, Debug)]
pub enum TriggerLevel {
    /// One byte: field value `0b00`.
    _1,
    /// Four bytes: field value `0b01`.
    _4,
    /// Eight bytes: field value `0b10`.
    _8,
    /// Fourteen bytes: field value `0b11`.
    _14,
}

/// The trigger level that a field value reads as.
pub open spec fn trigger_level_of(code: u8) -> TriggerLevel {
    if code == 0 {
        TriggerLevel::_1
    } else if code == 1 {
        TriggerLevel::_4
    } else if code == 2 {
        TriggerLevel::_8
    } else {
        TriggerLevel::_14
    }
}

/// Whether `v` is the FIFO control byte with trigger level `level`, the FIFOs
/// enabled (bit 0), both FIFO resets (bits 1 and 2) equal to `reset`, and the
/// unused bits 3 to 5 clear.
pub open spec fn is_fifo_control(v: u8, level: TriggerLevel, reset: bool) -> bool {
    &&& field2(v, FifoControl::TRIGGER_LO) == level.code()
    &&& bit(v, FifoControl::ENABLE)
    &&& bit(v, FifoControl::RX_RESET) == reset
    &&& bit(v, FifoControl::TX_RESET) == reset
    &&& !bit(v, 3) && !bit(v, 4) && !bit(v, 5)
}

proof fn lemma_fifo_control_byte(code: u8, low: u8)
    requires
        code < 4,
        low == 1 || low == 7,
    ensures
        field2(((code << 6u8) | low) as u8, 6) == code,
        bit(((code << 6u8) | low) as u8, 0),
        bit(((code << 6u8) | low) as u8, 1) == (low == 7),
        bit(((code << 6u8) | low) as u8, 2) == (low == 7),
        !bit(((code << 6u8) | low) as u8, 3),
        !bit(((code << 6u8) | low) as u8, 4),
        !bit(((code << 6u8) | low) as u8, 5),
{
    let v = ((code << 6u8) | low) as u8;
    assert(((v >> 6u8) & 3u8) == code && (v >> 0u8) & 1u8 == 1u8 && ((v >> 1u8) & 1u8 == 1u8)
        == (low == 7) && ((v >> 2u8) & 1u8 == 1u8) == (low == 7) && (v >> 3u8) & 1u8 != 1u8 && (v
        >> 4u8) & 1u8 != 1u8 && (v >> 5u8) & 1u8 != 1u8) by (bit_vector)
        requires
            code < 4,
            low == 1 || low == 7,
            v == ((code << 6u8) | low) as u8,
    ;
}

impl FifoControl {
    /// Bit that enables both FIFOs.
    pub const ENABLE: u8 = 0;

    /// Bit that clears the receive FIFO.
    pub const RX_RESET: u8 = 1;

    /// Bit that clears the transmit FIFO.
    pub const TX_RESET: u8 = 2;

    /// Low bit of the trigger level field.
    pub const TRIGGER_LO: u8 = 6;

    /// The byte of this setting.
    pub fn byte(self) -> (r: u8)
        ensures
            r == self@,
    {
        self.0
    }
}

impl TriggerLevel {
    /// The field value that selects this level.
    pub open spec fn code(self) -> u8 {
        match self {
            TriggerLevel::_1 => 0,
            TriggerLevel::_4 => 1,
            TriggerLevel::_8 => 2,
            TriggerLevel::_14 => 3,
        }
    }

    /// The field value that selects this level.
    pub fn to_bits(self) -> (r: u8)
        ensures
            r == self.code(),
    {
        match self {
            TriggerLevel::_1 => 0b00,
            TriggerLevel::_4 => 0b01,
            TriggerLevel::_8 => 0b10,
            TriggerLevel::_14 => 0b11,
        }
    }

    /// The setting that selects this trigger level, enables the FIFOs and clears both
    /// of them.
    pub fn and_reset(self) -> (r: FifoControl)
        ensures
            is_fifo_control(r@, self, true),
    {
        let code = self.to_bits();
        proof {
            lemma_fifo_control_byte(code, 0b111);
        }
        FifoControl((code << FifoControl::TRIGGER_LO) | 0b111)
    }

    /// The setting that selects this trigger level and enables the FIFOs, keeping what
    /// they hold.
    pub fn without_reset(self) -> (r: FifoControl)
        ensures
            is_fifo_control(r@, self, false),
    {
        let code = self.to_bits();
        proof {
            lemma_fifo_control_byte(code, 0b001);
        }
        FifoControl((code << FifoControl::TRIGGER_LO) | 0b001)
    }
}

/// Both settings that a trigger level makes carry that level in their trigger field.
pub proof fn lemma_trigger_level_round_trip(t: TriggerLevel, v: u8, reset: bool)
    requires
        is_fifo_control(v, t, reset),
    ensures
        trigger_level_of(field2(v, FifoControl::TRIGGER_LO)) == t,
{
}

} // verus!

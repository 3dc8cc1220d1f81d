//! The line control register: framing of each character and divisor latch access.
use vstd::prelude::*;

use crate::bits::{
    bit, clear_bit, field2, lemma_clear_bit, lemma_field2_other_bit, lemma_field2_other_field,
    lemma_field2_round_trip, lemma_set_bit, lemma_set_field2, set_bit, set_field2,
};

verus! {

/// Line control setting: the byte held by the line control register.
#[derive(Clone, Copy, PartialEq, Eq, Structural, Debug)]
pub struct LineControl(u8);

impl View for LineControl {
    type V = u8;

    closed spec fn view(&self) -> u8 {
        self.0
    }
}

/// Parity mode, held in the two-bit field at bit 3.
#[derive(Clone, Copy, PartialEq, Eq, Structural, Debug)]
#[allow(non_camel_case_types, clippy::upper_case_acronyms)]
pub enum PARITY {
    /// No parity bit: field value `0b00`.
    NONE,
    /// Even parity: field value `0b10`.
    EVEN,
    /// Odd parity: field value `0b11`.
    ODD,
}

/// Number of data bits in a character, held in the two-bit field at bit 0.
#[derive(Clone, Copy, PartialEq, Eq, Structural, Debug)]
#[allow(clippy::upper_case_acronyms)]
pub enum CharLen {
    /// Five data bits: field value `0b00`.
    FIVE,
    /// Six data bits: field value `0b01`.
    SIX,
    /// Seven data bits: field value `0b10`.
    SEVEN,
    /// Eight data bits: field value `0b11`.
    EIGHT,
}

impl PARITY {
    /// The field value that selects this mode.
    pub open spec fn code(self) -> u8 {
        match self {
            PARITY::NONE => 0,
            PARITY::EVEN => 2,
            PARITY::ODD => 3,
        }
    }

    /// The field value that selects this mode.
    pub fn to_bits(self) -> (r: u8)
        ensures
            r == self.code(),
    {
        match self {
            PARITY::NONE => 0b00,
            PARITY::EVEN => 0b10,
            PARITY::ODD => 0b11,
        }
    }
}

/// The parity mode that a field value reads as: the reserved value `0b01` reads as no
/// parity.
pub open spec fn parity_of(code: u8) -> PARITY {
    if code == 2 {
        PARITY::EVEN
    } else if code == 3 {
        PARITY::ODD
    } else {
        PARITY::NONE
    }
}

impl CharLen {
    /// The field value that selects this length.
    pub open spec fn code(self) -> u8 {
        match self {
            CharLen::FIVE => 0,
            CharLen::SIX => 1,
            CharLen::SEVEN => 2,
            CharLen::EIGHT => 3,
        }
    }

    /// The field value that selects this length.
    pub fn to_bits(self) -> (r: u8)
        ensures
            r == self.code(),
    {
        match self {
            CharLen::FIVE => 0b00,
            CharLen::SIX => 0b01,
            CharLen::SEVEN => 0b10,
            CharLen::EIGHT => 0b11,
        }
    }
}

/// The character length that a field value reads as; every two-bit value names one.
pub open spec fn char_len_of(code: u8) -> CharLen {
    if code == 0 {
        CharLen::FIVE
    } else if code == 1 {
        CharLen::SIX
    } else if code == 2 {
        CharLen::SEVEN
    } else {
        CharLen::EIGHT
    }
}

impl Default for LineControl {
    /// Eight data bits, no parity, one stop bit.
    fn default() -> (r: Self)
        ensures
            r@ == LineControl::CONFIG_8N1,
    {
        Self::config_8n1()
    }
}

impl LineControl {
    /// The byte of eight data bits, no parity and one stop bit.
    pub const CONFIG_8N1: u8 = 0b11;

    /// Low bit of the character length field.
    pub const CHAR_LEN_LO: u8 = 0;

    /// Bit that selects more than one stop bit.
    pub const STOP_BIT_SEL: u8 = 2;

    /// Low bit of the parity field.
    pub const PARITY_LO: u8 = 3;

    /// Bit that enables stick parity.
    pub const STICK_PARITY: u8 = 5;

    /// Bit that enables break control.
    pub const BREAK_CTRL: u8 = 6;

    /// Bit that gives access to the divisor latch (DLAB).
    pub const DLAB: u8 = 7;

    /// Eight data bits, no parity, one stop bit.
    pub fn config_8n1() -> (r: Self)
        ensures
            r@ == Self::CONFIG_8N1,
    {
        Self(Self::CONFIG_8N1)
    }

    /// The setting whose byte is `v`.
    pub fn from_byte(v: u8) -> (r: Self)
        ensures
            r@ == v,
    {
        Self(v)
    }

    /// The byte of this setting.
    pub fn byte(self) -> (r: u8)
        ensures
            r == self@,
    {
        self.0
    }

    /// Enables divisor latch access.
    pub fn enable_dlr_access(self) -> (r: Self)
        ensures
            r@ == set_bit(self@, Self::DLAB),
    {
        Self(self.0 | (1u8 << Self::DLAB))
    }

    /// Disables divisor latch access.
    pub fn disable_dlr_access(self) -> (r: Self)
        ensures
            r@ == clear_bit(self@, Self::DLAB),
    {
        Self(self.0 & !(1u8 << Self::DLAB))
    }

    /// Whether divisor latch access is enabled.
    pub fn dlr_access_enabled(self) -> (r: bool)
        ensures
            r == bit(self@, Self::DLAB),
    {
        (self.0 >> Self::DLAB) & 1 == 1
    }

    /// Enables break control.
    pub fn enable_break_control(self) -> (r: Self)
        ensures
            r@ == set_bit(self@, Self::BREAK_CTRL),
    {
        Self(self.0 | (1u8 << Self::BREAK_CTRL))
    }

    /// Disables break control.
    pub fn disable_break_control(self) -> (r: Self)
        ensures
            r@ == clear_bit(self@, Self::BREAK_CTRL),
    {
        Self(self.0 & !(1u8 << Self::BREAK_CTRL))
    }

    /// Whether break control is enabled.
    pub fn break_control_enabled(self) -> (r: bool)
        ensures
            r == bit(self@, Self::BREAK_CTRL),
    {
        (self.0 >> Self::BREAK_CTRL) & 1 == 1
    }

    /// Enables stick parity.
    pub fn enable_stick_parity(self) -> (r: Self)
        ensures
            r@ == set_bit(self@, Self::STICK_PARITY),
    {
        Self(self.0 | (1u8 << Self::STICK_PARITY))
    }

    /// Disables stick parity.
    pub fn disable_stick_parity(self) -> (r: Self)
        ensures
            r@ == clear_bit(self@, Self::STICK_PARITY),
    {
        Self(self.0 & !(1u8 << Self::STICK_PARITY))
    }

    /// Whether stick parity is enabled.
    pub fn stick_parity_enabled(self) -> (r: bool)
        ensures
            r == bit(self@, Self::STICK_PARITY),
    {
        (self.0 >> Self::STICK_PARITY) & 1 == 1
    }

    /// Selects the parity mode.
    pub fn set_parity(self, sel: PARITY) -> (r: Self)
        ensures
            r@ == set_field2(self@, Self::PARITY_LO, sel.code()),
    {
        Self((self.0 & !(3u8 << Self::PARITY_LO)) | ((sel.to_bits() & 3) << Self::PARITY_LO))
    }

    /// The parity mode.
    pub fn parity(self) -> (r: PARITY)
        ensures
            r == parity_of(field2(self@, Self::PARITY_LO)),
    {
        match (self.0 >> Self::PARITY_LO) & 3 {
            0b10 => PARITY::EVEN,
            0b11 => PARITY::ODD,
            _ => PARITY::NONE,
        }
    }

    /// Selects one stop bit (`val` true) or more than one (`val` false).
    pub fn set_one_stop_bit(self, val: bool) -> (r: Self)
        ensures
            r@ == if val {
                clear_bit(self@, Self::STOP_BIT_SEL)
            } else {
                set_bit(self@, Self::STOP_BIT_SEL)
            },
    {
        if val {
            Self(self.0 & !(1u8 << Self::STOP_BIT_SEL))
        } else {
            Self(self.0 | (1u8 << Self::STOP_BIT_SEL))
        }
    }

    /// Whether one stop bit is selected.
    pub fn is_one_stop_bit(self) -> (r: bool)
        ensures
            r == !bit(self@, Self::STOP_BIT_SEL),
    {
        (self.0 >> Self::STOP_BIT_SEL) & 1 != 1
    }

    /// Selects the character length.
    pub fn set_char_len(self, len: CharLen) -> (r: Self)
        ensures
            r@ == set_field2(self@, Self::CHAR_LEN_LO, len.code()),
    {
        Self((self.0 & !(3u8 << Self::CHAR_LEN_LO)) | ((len.to_bits() & 3) << Self::CHAR_LEN_LO))
    }

    /// The character length.
    pub fn char_len(self) -> (r: CharLen)
        ensures
            r == char_len_of(field2(self@, Self::CHAR_LEN_LO)),
    {
        match (self.0 >> Self::CHAR_LEN_LO) & 3 {
            0b00 => CharLen::FIVE,
            0b01 => CharLen::SIX,
            0b10 => CharLen::SEVEN,
            _ => CharLen::EIGHT,
        }
    }
}

/// Whether `k` is the bit of one of the three flags of the line control byte: DLAB,
/// break control or stick parity.
pub open spec fn is_line_control_flag(k: u8) -> bool {
    k == LineControl::DLAB || k == LineControl::BREAK_CTRL || k == LineControl::STICK_PARITY
}

/// The framing fields of a line control byte read back what was written to them, and
/// writing any other field or any flag leaves each of them as it was: the character
/// length, the parity mode and the stop bit selection are independent of each other and
/// of DLAB, break control and stick parity.
pub proof fn lemma_line_control_fields(v: u8, c: CharLen, p: PARITY, k: u8, x: u8)
    requires
        is_line_control_flag(k),
    ensures
        char_len_of(
            field2(set_field2(v, LineControl::CHAR_LEN_LO, c.code()), LineControl::CHAR_LEN_LO),
        )
            == c,
        parity_of(field2(set_field2(v, LineControl::PARITY_LO, p.code()), LineControl::PARITY_LO))
            == p,
        !bit(clear_bit(v, LineControl::STOP_BIT_SEL), LineControl::STOP_BIT_SEL),
        bit(set_bit(v, LineControl::STOP_BIT_SEL), LineControl::STOP_BIT_SEL),
        field2(set_field2(v, LineControl::PARITY_LO, x), LineControl::CHAR_LEN_LO)
            == field2(v, LineControl::CHAR_LEN_LO),
        field2(set_bit(v, LineControl::STOP_BIT_SEL), LineControl::CHAR_LEN_LO)
            == field2(v, LineControl::CHAR_LEN_LO),
        field2(clear_bit(v, LineControl::STOP_BIT_SEL), LineControl::CHAR_LEN_LO)
            == field2(v, LineControl::CHAR_LEN_LO),
        field2(set_bit(v, k), LineControl::CHAR_LEN_LO) == field2(v, LineControl::CHAR_LEN_LO),
        field2(clear_bit(v, k), LineControl::CHAR_LEN_LO) == field2(v, LineControl::CHAR_LEN_LO),
        field2(set_field2(v, LineControl::CHAR_LEN_LO, x), LineControl::PARITY_LO)
            == field2(v, LineControl::PARITY_LO),
        field2(set_bit(v, LineControl::STOP_BIT_SEL), LineControl::PARITY_LO)
            == field2(v, LineControl::PARITY_LO),
        field2(clear_bit(v, LineControl::STOP_BIT_SEL), LineControl::PARITY_LO)
            == field2(v, LineControl::PARITY_LO),
        field2(set_bit(v, k), LineControl::PARITY_LO) == field2(v, LineControl::PARITY_LO),
        field2(clear_bit(v, k), LineControl::PARITY_LO) == field2(v, LineControl::PARITY_LO),
        bit(set_field2(v, LineControl::CHAR_LEN_LO, x), LineControl::STOP_BIT_SEL)
            == bit(v, LineControl::STOP_BIT_SEL),
        bit(set_field2(v, LineControl::PARITY_LO, x), LineControl::STOP_BIT_SEL)
            == bit(v, LineControl::STOP_BIT_SEL),
        bit(set_bit(v, k), LineControl::STOP_BIT_SEL) == bit(v, LineControl::STOP_BIT_SEL),
        bit(clear_bit(v, k), LineControl::STOP_BIT_SEL) == bit(v, LineControl::STOP_BIT_SEL),
        bit(set_field2(v, LineControl::CHAR_LEN_LO, x), k) == bit(v, k),
        bit(set_field2(v, LineControl::PARITY_LO, x), k) == bit(v, k),
{
    lemma_field2_round_trip(v, LineControl::CHAR_LEN_LO, c.code());
    lemma_field2_round_trip(v, LineControl::PARITY_LO, p.code());
    lemma_set_bit(v, LineControl::STOP_BIT_SEL, LineControl::STOP_BIT_SEL);
    lemma_clear_bit(v, LineControl::STOP_BIT_SEL, LineControl::STOP_BIT_SEL);
    lemma_field2_other_field(v, LineControl::CHAR_LEN_LO, LineControl::PARITY_LO, x);
    lemma_field2_other_field(v, LineControl::PARITY_LO, LineControl::CHAR_LEN_LO, x);
    lemma_field2_other_bit(v, LineControl::CHAR_LEN_LO, LineControl::STOP_BIT_SEL);
    lemma_field2_other_bit(v, LineControl::CHAR_LEN_LO, k);
    lemma_field2_other_bit(v, LineControl::PARITY_LO, LineControl::STOP_BIT_SEL);
    lemma_field2_other_bit(v, LineControl::PARITY_LO, k);
    lemma_set_field2(v, LineControl::CHAR_LEN_LO, x, LineControl::STOP_BIT_SEL);
    lemma_set_field2(v, LineControl::PARITY_LO, x, LineControl::STOP_BIT_SEL);
    lemma_set_bit(v, k, LineControl::STOP_BIT_SEL);
    lemma_clear_bit(v, k, LineControl::STOP_BIT_SEL);
    lemma_set_field2(v, LineControl::CHAR_LEN_LO, x, k);
    lemma_set_field2(v, LineControl::PARITY_LO, x, k);
}

} // verus!

//! The interrupt enable register: four independent enable bits.
use vstd::prelude::*;

use crate::bits::{bit, clear_bit, set_bit};

verus! {

/// Interrupt enable setting: the byte held by the interrupt enable register.
#[derive(Clone, Copy, PartialEq, Eq, Structural, Debug)]
pub struct InterruptTypes(u8);

impl View for InterruptTypes {
    type V = u8;

    closed spec fn view(&self) -> u8 {
        self.0
    }
}

impl Default for InterruptTypes {
    /// All interrupts disabled.
    fn default() -> (r: Self)
        ensures
            r@ == 0,
    {
        Self(0)
    }
}

impl InterruptTypes {

    /// Bit of the received-data-available interrupt.
    pub const RDA_BIT: u8 = 0;

    /// Bit of the transmit-holding-register-empty interrupt.
    pub const THRE_BIT: u8 = 1;

    /// Bit of the receiver-line-status interrupt.
    pub const RLS_BIT: u8 = 2;

    /// Bit of the modem-status interrupt.
    pub const MS_BIT: u8 = 3;

    /// The setting whose byte is `v`.
    pub fn from_byte(v: u8) -> (r: Self)
        ensures
            r@ == v,
    {
        Self(v)
    }

    /// The byte of this setting.
    pub fn byte(self) -> (r: u8)
        ensures
            r == self@,
    {
        self.0
    }

    /// Enables the received-data-available interrupt.
    pub fn enable_rda(self) -> (r: Self)
        ensures
            r@ == set_bit(self@, Self::RDA_BIT),
    {
        Self(self.0 | (1u8 << Self::RDA_BIT))
    }

    /// Disables the received-data-available interrupt.
    pub fn disable_rda(self) -> (r: Self)
        ensures
            r@ == clear_bit(self@, Self::RDA_BIT),
    {
        Self(self.0 & !(1u8 << Self::RDA_BIT))
    }

    /// Whether the received-data-available interrupt is enabled.
    pub fn rda_enabled(self) -> (r: bool)
        ensures
            r == bit(self@, Self::RDA_BIT),
    {
        (self.0 >> Self::RDA_BIT) & 1 == 1
    }

    /// Enables the transmit-holding-register-empty interrupt.
    pub fn enable_thre(self) -> (r: Self)
        ensures
            r@ == set_bit(self@, Self::THRE_BIT),
    {
        Self(self.0 | (1u8 << Self::THRE_BIT))
    }

    /// Disables the transmit-holding-register-empty interrupt.
    pub fn disable_thre(self) -> (r: Self)
        ensures
            r@ == clear_bit(self@, Self::THRE_BIT),
    {
        Self(self.0 & !(1u8 << Self::THRE_BIT))
    }

    /// Whether the transmit-holding-register-empty interrupt is enabled.
    pub fn thre_enabled(self) -> (r: bool)
        ensures
            r == bit(self@, Self::THRE_BIT),
    {
        (self.0 >> Self::THRE_BIT) & 1 == 1
    }

    /// Enables the receiver-line-status interrupt.
    pub fn enable_rls(self) -> (r: Self)
        ensures
            r@ == set_bit(self@, Self::RLS_BIT),
    {
        Self(self.0 | (1u8 << Self::RLS_BIT))
    }

    /// Disables the receiver-line-status interrupt.
    pub fn disable_rls(self) -> (r: Self)
        ensures
            r@ == clear_bit(self@, Self::RLS_BIT),
    {
        Self(self.0 & !(1u8 << Self::RLS_BIT))
    }

    /// Whether the receiver-line-status interrupt is enabled.
    pub fn rls_enabled(self) -> (r: bool)
        ensures
            r == bit(self@, Self::RLS_BIT),
    {
        (self.0 >> Self::RLS_BIT) & 1 == 1
    }

    /// Enables the modem-status interrupt.
    pub fn enable_ms(self) -> (r: Self)
        ensures
            r@ == set_bit(self@, Self::MS_BIT),
    {
        Self(self.0 | (1u8 << Self::MS_BIT))
    }

    /// Disables the modem-status interrupt.
    pub fn disable_ms(self) -> (r: Self)
        ensures
            r@ == clear_bit(self@, Self::MS_BIT),
    {
        Self(self.0 & !(1u8 << Self::MS_BIT))
    }

    /// Whether the modem-status interrupt is enabled.
    pub fn ms_enabled(self) -> (r: bool)
        ensures
            r == bit(self@, Self::MS_BIT),
    {
        (self.0 >> Self::MS_BIT) & 1 == 1
    }
}

} // verus!

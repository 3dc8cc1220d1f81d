//! The modem status register, kept as a plain byte.
use vstd::prelude::*;

verus! {

/// Modem status: the byte read from the modem status register. No bitfield of it is
/// decoded here: the byte is used as it stands.
#[derive(Clone, Copy, PartialEq, Eq, Structural, Debug)]
pub struct ModemStatus(pub u8);

impl Default for ModemStatus {
    /// The zero byte.
    fn default() -> (r: Self)
        ensures
            r.0 == 0,
    {
        Self(0)
    }
}

} // verus!

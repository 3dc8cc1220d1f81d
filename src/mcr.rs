//! The modem control register, kept as a plain byte.
use vstd::prelude::*;

verus! {

/// Modem control setting: the byte held by the modem control register. No bitfield
/// of it is decoded here: the byte is used as it stands.
#[derive(Clone, Copy, PartialEq, Eq, Structural, Debug)]
pub struct ModemControl(pub u8);

impl Default for ModemControl {
    /// The zero byte.
    fn default() -> (r: Self)
        ensures
            r.0 == 0,
    {
        Self(0)
    }
}

} // verus!

//! Storage width of a register cell: an 8-bit or a 32-bit word, of which only the
//! low 8 bits are significant.
use vstd::prelude::*;

verus! {

/// Storage word of one register cell. Whatever its width, only 8 bits are significant.
pub trait Register: Copy + Sized {
    /// The significant byte of the word.
    spec fn spec_val(self) -> u8;

    /// The word that storing byte `b` writes: the whole word is replaced.
    spec fn spec_from(b: u8) -> Self;

    /// Storing a byte and reading back the significant bits gives that byte.
    proof fn lemma_val_from(b: u8)
        ensures
            Self::spec_from(b).spec_val() == b,
    ;

    /// The word that stores byte `b`.
    fn from_byte(b: u8) -> (r: Self)
        ensures
            r == Self::spec_from(b),
            r.spec_val() == b,
    ;

    /// The significant byte of the word.
    fn val(self) -> (r: u8)
        ensures
            r == self.spec_val(),
    ;
}

/// Registers held in 8-bit cells.
impl Register for u8 {
    open spec fn spec_val(self) -> u8 {
        self
    }

    open spec fn spec_from(b: u8) -> u8 {
        b
    }

    proof fn lemma_val_from(b: u8) {
    }

    fn from_byte(b: u8) -> (r: u8) {
        b
    }

    fn val(self) -> (r: u8) {
        self
    }
}

/// Registers held in 32-bit cells, of which the high 24 bits are unused.
impl Register for u32 {
    open spec fn spec_val(self) -> u8 {
        self as u8
    }

    open spec fn spec_from(b: u8) -> u32 {
        b as u32
    }

    proof fn lemma_val_from(b: u8) {
        assert((b as u32) as u8 == b) by (bit_vector);
    }

    fn from_byte(b: u8) -> (r: u32) {
        proof {
            Self::lemma_val_from(b);
        }
        b as u32
    }

    fn val(self) -> (r: u8) {
        self as u8
    }
}

/// Both storage widths hold every byte alike: what is read back from a word that
/// stores `b` is `b`, whether the cell is 8 or 32 bits wide.
pub proof fn lemma_width_transparent(b: u8)
    ensures
        <u8 as Register>::spec_from(b).spec_val() == b,
        <u32 as Register>::spec_from(b).spec_val() == b,
{
    <u8 as Register>::lemma_val_from(b);
    <u32 as Register>::lemma_val_from(b);
}

} // verus!

//! The genetic model: asset records and the pure combiner that derives a
//! child code from two parent codes and a per-call selector mask.

use vstd::prelude::*;

verus! {

/// An asset record: a fixed-length, opaque genetic code. The code is
/// immutable once the asset is created; no operation ever rewrites it.
#[derive(Clone, Copy, Debug, PartialEq, Eq)]
pub struct Kitty(pub [u8; 16]);

impl View for Kitty {
    type V = Seq<u8>;

    open spec fn view(&self) -> Seq<u8> {
        self.0@
    }
}

/// One byte of genetic combination: where a selector bit is set the child
/// inherits the bit of `dna1`, where it is clear the bit of `dna2`.
pub open spec fn spec_combine_dna(dna1: u8, dna2: u8, selector: u8) -> u8 {
    (selector & dna1) | (!selector & dna2)
}

/// Combine one byte of two parent codes under a selector mask.
///
/// Pure, total and deterministic: the result is exactly
/// `spec_combine_dna(dna1, dna2, selector)`, a function of the three
/// arguments alone, so fixed inputs always yield the same byte.
pub fn combine_dna(dna1: u8, dna2: u8, selector: u8) -> (r: u8)
    ensures
        r == spec_combine_dna(dna1, dna2, selector),
{
    (selector & dna1) | (!selector & dna2)
}

/// The full child code: the combiner applied independently at each byte
/// position of the two parent codes under the selector.
pub open spec fn combined_code(code1: Seq<u8>, code2: Seq<u8>, selector: Seq<u8>) -> Seq<u8> {
    Seq::new(code1.len(), |i: int| spec_combine_dna(code1[i], code2[i], selector[i]))
}

} // verus!

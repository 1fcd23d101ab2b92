use vstd::prelude::*;

verus! {

/// The genome of a kitty: sixteen opaque bytes, fixed once the kitty exists.
#[derive(Clone, Copy, Debug, PartialEq, Eq)]
pub struct Kitty(pub [u8; 16]);

/// One byte of a child genome: each bit comes from `a` where the selector bit
/// is set, and from `b` where it is clear.
pub open spec fn mix_byte(s: u8, a: u8, b: u8) -> u8 {
    (s & a) | (!s & b)
}

/// The child genome of `a` and `b` under `selector`, byte by byte.
pub open spec fn mixed(a: Seq<u8>, b: Seq<u8>, selector: Seq<u8>) -> Seq<u8> {
    Seq::new(16, |i: int| mix_byte(selector[i], a[i], b[i]))
}

/// Combines two parent genomes into a child genome by a per-bit select.
pub fn mix_dna(dna1: &[u8; 16], dna2: &[u8; 16], selector: &[u8; 16]) -> (r: [u8; 16])
    ensures
        r@ == mixed(dna1@, dna2@, selector@),
{
    let mut new_dna: [u8; 16] = [0u8; 16];
    let mut i: usize = 0;
    while i < 16
        invariant
            0 <= i <= 16,
            forall|j: int| 0 <= j < i ==> new_dna[j] == mix_byte(selector[j], dna1[j], dna2[j]),
        decreases 16 - i,
    {
        new_dna[i] = (selector[i] & dna1[i]) | (!selector[i] & dna2[i]);
        i = i + 1;
    }
    assert(new_dna@ =~= mixed(dna1@, dna2@, selector@));
    new_dna
}

} // verus!

use vstd::prelude::*;

verus! {

/// The four nibbles of a 16-bit instruction word, most significant first.
pub open spec fn nibbles_of(word: u16) -> Seq<u8> {
    seq![
        (word / 4096) as u8,
        ((word / 256) % 16) as u8,
        ((word / 16) % 16) as u8,
        (word % 16) as u8,
    ]
}

/// Whether every element of `nibbs` is a nibble, that is, fits in four bits.
pub open spec fn all_nibbles(nibbs: Seq<u8>) -> bool {
    forall|k: int| 0 <= k < nibbs.len() ==> nibbs[k] < 16
}

/// The number whose base-16 digits are `nibbs`, most significant first.
pub open spec fn conc_value(nibbs: Seq<u8>) -> nat
    decreases nibbs.len(),
{
    if nibbs.len() == 0 {
        0
    } else {
        conc_value(nibbs.drop_last()) * 16 + nibbs.last() as nat
    }
}

/// Splits an instruction word into its four nibbles, most significant first.
/// Nothing of the word is lost: the nibbles, concatenated, give it back.
pub fn split_nibbles(word: u16) -> (nibbs: [u8; 4])
    ensures
        nibbs@ == nibbles_of(word),
        all_nibbles(nibbs@),
        conc_value(nibbs@) == word,
{
    proof {
        lemma_split_conc(word);
    }
    assert((word >> 12) & 0xF == word / 4096) by (bit_vector);
    assert((word >> 8) & 0xF == (word / 256) % 16) by (bit_vector);
    assert((word >> 4) & 0xF == (word / 16) % 16) by (bit_vector);
    assert(word & 0xF == word % 16) by (bit_vector);
    let nibbs = [
        ((word >> 12) & 0xF) as u8,
        ((word >> 8) & 0xF) as u8,
        ((word >> 4) & 0xF) as u8,
        (word & 0xF) as u8,
    ];
    assert(nibbs@ =~= nibbles_of(word));
    nibbs
}

/// Shifting one more digit into a sixteen-bit accumulator keeps it equal to
/// the digits' value modulo 2^16.
proof fn lemma_shift_in(value: nat, acc: u16, nibb: u8)
    requires
        acc == value % 65536,
        nibb < 16,
    ensures
        ((acc << 4) | (nibb as u16)) == (value * 16 + nibb) % 65536,
{
    let low = nibb as u16;
    assert(((acc << 4) | low) == (acc * 16 + low) % 65536) by (bit_vector)
        requires
            low < 16,
    ;
    assert((acc * 16 + low) % 65536 == (value * 16 + low) % 65536) by (nonlinear_arith)
        requires
            acc == value % 65536,
    ;
}

/// Concatenates nibbles, most significant first, into a sixteen-bit number;
/// digits shifted past the sixteenth bit are lost.
pub fn conc_nibbles(nibbs: &[u8]) -> (addr: u16)
    requires
        all_nibbles(nibbs@),
    ensures
        addr == conc_value(nibbs@) % 65536,
{
    let mut addr: u16 = 0;
    let mut k: usize = 0;
    while k < nibbs.len()
        invariant
            k <= nibbs.len(),
            all_nibbles(nibbs@),
            addr == conc_value(nibbs@.take(k as int)) % 65536,
        decreases nibbs.len() - k,
    {
        proof {
            let prefix = nibbs@.take(k as int + 1);
            assert(prefix.drop_last() =~= nibbs@.take(k as int));
            assert(prefix.last() == nibbs@[k as int]);
            lemma_shift_in(conc_value(nibbs@.take(k as int)), addr, nibbs@[k as int]);
        }
        addr = (addr << 4) | (nibbs[k] as u16);
        k += 1;
    }
    assert(nibbs@.take(k as int) =~= nibbs@);
    addr
}

/// Decoding is lossless: the four nibbles of a word, concatenated again, give
/// the word back.
pub proof fn lemma_split_conc(word: u16)
    ensures
        all_nibbles(nibbles_of(word)),
        conc_value(nibbles_of(word)) == word,
{
    let n = nibbles_of(word);
    let n3 = n.drop_last();
    let n2 = n3.drop_last();
    let n1 = n2.drop_last();
    assert(conc_value(n1.drop_last()) == 0);
    assert(conc_value(n1) == n[0]);
    assert(conc_value(n2) == n[0] * 16 + n[1]);
    assert(conc_value(n3) == (n[0] * 16 + n[1]) * 16 + n[2]);
    assert(conc_value(n) == ((n[0] * 16 + n[1]) * 16 + n[2]) * 16 + n[3]);
}

} // verus!

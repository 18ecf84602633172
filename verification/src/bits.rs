//! Single-bit arithmetic on 32-bit register words.
//!
//! Every peripheral of the board is configured by setting, clearing or reading
//! individual bits of memory-mapped words. The functions here compute the new
//! word; their contracts say, bit by bit, what the new word holds.

use vstd::prelude::*;

verus! {

/// Whether bit `i` of `word` is set. Positions start at 0 for the least
/// significant bit; positions outside `0..32` hold no bit.
pub open spec fn bit(word: u32, i: int) -> bool {
    0 <= i < 32 && (word >> (i as u32)) & 1 == 1
}

/// `word` with bit `p` set.
pub open spec fn with_bit(word: u32, p: u8) -> u32 {
    word | (1u32 << p)
}

/// `word` with bit `p` cleared.
pub open spec fn without_bit(word: u32, p: u8) -> u32 {
    word & !(1u32 << p)
}

/// `word` with bit `p` inverted.
pub open spec fn with_bit_toggled(word: u32, p: u8) -> u32 {
    word ^ (1u32 << p)
}

/// The word with exactly bit `num` set.
pub fn generate_mask(num: u8) -> (mask: u32)
    requires
        num < 32,
    ensures
        mask == 1u32 << num,
        forall|i: int| bit(mask, i) <==> i == num,
{
    let mask: u32 = 1u32 << num;
    proof {
        lemma_mask_bits(num as u32);
    }
    mask
}

/// `word` with bit `p` set and every other bit as it was.
pub fn set_bit(word: u32, p: u8) -> (out: u32)
    requires
        p < 32,
    ensures
        out == with_bit(word, p),
        forall|i: int| #[trigger] bit(out, i) <==> (i == p || bit(word, i)),
{
    let out: u32 = word | generate_mask(p);
    proof {
        lemma_or_mask_bits(word, p as u32);
    }
    out
}

/// `word` with bit `p` cleared and every other bit as it was.
pub fn clear_bit(word: u32, p: u8) -> (out: u32)
    requires
        p < 32,
    ensures
        out == without_bit(word, p),
        forall|i: int| #[trigger] bit(out, i) <==> (i != p && bit(word, i)),
{
    let out: u32 = word & !generate_mask(p);
    proof {
        lemma_and_not_mask_bits(word, p as u32);
    }
    out
}

/// `word` with bit `p` inverted and every other bit as it was.
pub fn toggle_bit(word: u32, p: u8) -> (out: u32)
    requires
        p < 32,
    ensures
        out == with_bit_toggled(word, p),
        forall|i: int|
            0 <= i < 32 ==> (#[trigger] bit(out, i) <==> (bit(word, i) != (i == p))),
{
    let out: u32 = word ^ generate_mask(p);
    proof {
        lemma_xor_mask_bits(word, p as u32);
    }
    out
}

/// Reads bit `p` of `word`.
pub fn test_bit(word: u32, p: u8) -> (set: bool)
    requires
        p < 32,
    ensures
        set == bit(word, p as int),
{
    (word >> p) & 1 == 1
}

/// A word with one bit set has that bit and no other.
pub proof fn lemma_mask_bits(p: u32)
    requires
        p < 32,
    ensures
        forall|i: int| bit(1u32 << p, i) <==> i == p,
{
    assert forall|i: int| bit(1u32 << p, i) <==> i == p by {
        if 0 <= i < 32 {
            let j = i as u32;
            assert(((1u32 << p) >> j) & 1 == 1 <==> j == p) by (bit_vector)
                requires
                    p < 32,
                    j < 32,
            ;
        }
    }
}

/// Or-ing a one-bit mask into a word sets that bit and keeps the others.
pub proof fn lemma_or_mask_bits(word: u32, p: u32)
    requires
        p < 32,
    ensures
        forall|i: int| #[trigger] bit(word | (1u32 << p), i) <==> (i == p || bit(word, i)),
{
    assert forall|i: int| #[trigger] bit(word | (1u32 << p), i) <==> (i == p || bit(word, i)) by {
        if 0 <= i < 32 {
            let j = i as u32;
            assert(((word | (1u32 << p)) >> j) & 1 == 1 <==> (j == p || (word >> j) & 1 == 1))
                by (bit_vector)
                requires
                    p < 32,
                    j < 32,
            ;
        }
    }
}

/// And-ing the complement of a one-bit mask into a word clears that bit and
/// keeps the others.
pub proof fn lemma_and_not_mask_bits(word: u32, p: u32)
    requires
        p < 32,
    ensures
        forall|i: int| #[trigger] bit(word & !(1u32 << p), i) <==> (i != p && bit(word, i)),
{
    assert forall|i: int| #[trigger] bit(word & !(1u32 << p), i) <==> (i != p && bit(word, i)) by {
        if 0 <= i < 32 {
            let j = i as u32;
            assert(((word & !(1u32 << p)) >> j) & 1 == 1 <==> (j != p && (word >> j) & 1 == 1))
                by (bit_vector)
                requires
                    p < 32,
                    j < 32,
            ;
        }
    }
}

/// Xor-ing a one-bit mask into a word inverts that bit and keeps the others.
pub proof fn lemma_xor_mask_bits(word: u32, p: u32)
    requires
        p < 32,
    ensures
        forall|i: int|
            0 <= i < 32 ==> (#[trigger] bit(word ^ (1u32 << p), i) <==> (bit(word, i) != (i == p))),
{
    assert forall|i: int| 0 <= i < 32 implies (#[trigger] bit(word ^ (1u32 << p), i) <==> (bit(
        word,
        i,
    ) != (i == p))) by {
        let j = i as u32;
        assert(((word ^ (1u32 << p)) >> j) & 1 == 1 <==> (((word >> j) & 1 == 1) != (j == p)))
            by (bit_vector)
            requires
                p < 32,
                j < 32,
        ;
    }
}

/// The zero word has no bit set.
pub proof fn lemma_zero_bits()
    ensures
        forall|i: int| !bit(0u32, i),
{
    assert forall|i: int| !bit(0u32, i) by {
        if 0 <= i < 32 {
            let j = i as u32;
            assert((0u32 >> j) & 1 == 0) by (bit_vector);
        }
    }
}

} // verus!

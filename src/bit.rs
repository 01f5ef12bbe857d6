//! Single-bit operations on 32-bit words.

use vstd::prelude::*;

verus! {

/// Whether bit `j` (counting from the least significant bit) of `n` is one.
pub open spec fn bit_set(n: u32, j: u32) -> bool {
    (n >> j) & 1u32 == 1u32
}

/// Two words with the same 32 bits are the same word.
pub proof fn lemma_same_bits_same_word(a: u32, b: u32)
    requires
        forall|j: u32| j < 32 ==> #[trigger] bit_set(a, j) == bit_set(b, j),
    ensures
        a == b,
{
    assert(bit_set(a, 0) == bit_set(b, 0));
    assert(bit_set(a, 1) == bit_set(b, 1));
    assert(bit_set(a, 2) == bit_set(b, 2));
    assert(bit_set(a, 3) == bit_set(b, 3));
    assert(bit_set(a, 4) == bit_set(b, 4));
    assert(bit_set(a, 5) == bit_set(b, 5));
    assert(bit_set(a, 6) == bit_set(b, 6));
    assert(bit_set(a, 7) == bit_set(b, 7));
    assert(bit_set(a, 8) == bit_set(b, 8));
    assert(bit_set(a, 9) == bit_set(b, 9));
    assert(bit_set(a, 10) == bit_set(b, 10));
    assert(bit_set(a, 11) == bit_set(b, 11));
    assert(bit_set(a, 12) == bit_set(b, 12));
    assert(bit_set(a, 13) == bit_set(b, 13));
    assert(bit_set(a, 14) == bit_set(b, 14));
    assert(bit_set(a, 15) == bit_set(b, 15));
    assert(bit_set(a, 16) == bit_set(b, 16));
    assert(bit_set(a, 17) == bit_set(b, 17));
    assert(bit_set(a, 18) == bit_set(b, 18));
    assert(bit_set(a, 19) == bit_set(b, 19));
    assert(bit_set(a, 20) == bit_set(b, 20));
    assert(bit_set(a, 21) == bit_set(b, 21));
    assert(bit_set(a, 22) == bit_set(b, 22));
    assert(bit_set(a, 23) == bit_set(b, 23));
    assert(bit_set(a, 24) == bit_set(b, 24));
    assert(bit_set(a, 25) == bit_set(b, 25));
    assert(bit_set(a, 26) == bit_set(b, 26));
    assert(bit_set(a, 27) == bit_set(b, 27));
    assert(bit_set(a, 28) == bit_set(b, 28));
    assert(bit_set(a, 29) == bit_set(b, 29));
    assert(bit_set(a, 30) == bit_set(b, 30));
    assert(bit_set(a, 31) == bit_set(b, 31));
    assert(a == b) by (bit_vector)
        requires
            ((a >> 0u32) & 1u32 == 1u32) == ((b >> 0u32) & 1u32 == 1u32),
            ((a >> 1u32) & 1u32 == 1u32) == ((b >> 1u32) & 1u32 == 1u32),
            ((a >> 2u32) & 1u32 == 1u32) == ((b >> 2u32) & 1u32 == 1u32),
            ((a >> 3u32) & 1u32 == 1u32) == ((b >> 3u32) & 1u32 == 1u32),
            ((a >> 4u32) & 1u32 == 1u32) == ((b >> 4u32) & 1u32 == 1u32),
            ((a >> 5u32) & 1u32 == 1u32) == ((b >> 5u32) & 1u32 == 1u32),
            ((a >> 6u32) & 1u32 == 1u32) == ((b >> 6u32) & 1u32 == 1u32),
            ((a >> 7u32) & 1u32 == 1u32) == ((b >> 7u32) & 1u32 == 1u32),
            ((a >> 8u32) & 1u32 == 1u32) == ((b >> 8u32) & 1u32 == 1u32),
            ((a >> 9u32) & 1u32 == 1u32) == ((b >> 9u32) & 1u32 == 1u32),
            ((a >> 10u32) & 1u32 == 1u32) == ((b >> 10u32) & 1u32 == 1u32),
            ((a >> 11u32) & 1u32 == 1u32) == ((b >> 11u32) & 1u32 == 1u32),
            ((a >> 12u32) & 1u32 == 1u32) == ((b >> 12u32) & 1u32 == 1u32),
            ((a >> 13u32) & 1u32 == 1u32) == ((b >> 13u32) & 1u32 == 1u32),
            ((a >> 14u32) & 1u32 == 1u32) == ((b >> 14u32) & 1u32 == 1u32),
            ((a >> 15u32) & 1u32 == 1u32) == ((b >> 15u32) & 1u32 == 1u32),
            ((a >> 16u32) & 1u32 == 1u32) == ((b >> 16u32) & 1u32 == 1u32),
            ((a >> 17u32) & 1u32 == 1u32) == ((b >> 17u32) & 1u32 == 1u32),
            ((a >> 18u32) & 1u32 == 1u32) == ((b >> 18u32) & 1u32 == 1u32),
            ((a >> 19u32) & 1u32 == 1u32) == ((b >> 19u32) & 1u32 == 1u32),
            ((a >> 20u32) & 1u32 == 1u32) == ((b >> 20u32) & 1u32 == 1u32),
            ((a >> 21u32) & 1u32 == 1u32) == ((b >> 21u32) & 1u32 == 1u32),
            ((a >> 22u32) & 1u32 == 1u32) == ((b >> 22u32) & 1u32 == 1u32),
            ((a >> 23u32) & 1u32 == 1u32) == ((b >> 23u32) & 1u32 == 1u32),
            ((a >> 24u32) & 1u32 == 1u32) == ((b >> 24u32) & 1u32 == 1u32),
            ((a >> 25u32) & 1u32 == 1u32) == ((b >> 25u32) & 1u32 == 1u32),
            ((a >> 26u32) & 1u32 == 1u32) == ((b >> 26u32) & 1u32 == 1u32),
            ((a >> 27u32) & 1u32 == 1u32) == ((b >> 27u32) & 1u32 == 1u32),
            ((a >> 28u32) & 1u32 == 1u32) == ((b >> 28u32) & 1u32 == 1u32),
            ((a >> 29u32) & 1u32 == 1u32) == ((b >> 29u32) & 1u32 == 1u32),
            ((a >> 30u32) & 1u32 == 1u32) == ((b >> 30u32) & 1u32 == 1u32),
            ((a >> 31u32) & 1u32 == 1u32) == ((b >> 31u32) & 1u32 == 1u32),
    ;
}

/// Clears bit `i` of `n`; every other bit is kept.
pub fn zero_bit(n: u32, i: u32) -> (r: u32)
    requires
        i < 32,
    ensures
        forall|j: u32| j < 32 ==> #[trigger] bit_set(r, j) == (j != i && bit_set(n, j)),
{
    let r = n & !(1u32 << i);
    assert forall|j: u32| j < 32 implies #[trigger] bit_set(r, j) == (j != i && bit_set(n, j)) by {
        assert(((n & !(1u32 << i)) >> j) & 1u32 == 1u32 <==> (j != i && (n >> j) & 1u32 == 1u32))
            by (bit_vector)
            requires
                i < 32,
                j < 32,
        ;
    }
    r
}

/// Sets bit `i` of `n`; every other bit is kept.
pub fn one_bit(n: u32, i: u32) -> (r: u32)
    requires
        i < 32,
    ensures
        forall|j: u32| j < 32 ==> #[trigger] bit_set(r, j) == (j == i || bit_set(n, j)),
{
    let r = n | (1u32 << i);
    assert forall|j: u32| j < 32 implies #[trigger] bit_set(r, j) == (j == i || bit_set(n, j)) by {
        assert(((n | (1u32 << i)) >> j) & 1u32 == 1u32 <==> (j == i || (n >> j) & 1u32 == 1u32))
            by (bit_vector)
            requires
                i < 32,
                j < 32,
        ;
    }
    r
}

/// Flips bit `i` of `n`; every other bit is kept.
pub fn swap_bit(n: u32, i: u32) -> (r: u32)
    requires
        i < 32,
    ensures
        forall|j: u32| j < 32 ==> #[trigger] bit_set(r, j) == (if j == i {
            !bit_set(n, j)
        } else {
            bit_set(n, j)
        }),
{
    let r = n ^ (1u32 << i);
    assert forall|j: u32| j < 32 implies #[trigger] bit_set(r, j) == (if j == i {
        !bit_set(n, j)
    } else {
        bit_set(n, j)
    }) by {
        assert(((n ^ (1u32 << i)) >> j) & 1u32 == 1u32 <==> (if j == i {
            (n >> j) & 1u32 != 1u32
        } else {
            (n >> j) & 1u32 == 1u32
        })) by (bit_vector)
            requires
                i < 32,
                j < 32,
        ;
    }
    r
}

} // verus!

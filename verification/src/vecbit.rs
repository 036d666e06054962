//! A user's bools, packed least significant bit first into one `u64`.
use vstd::prelude::*;

use bitvec::order::Lsb0;
use bitvec::view::BitView;

use crate::error::UserError;

verus! {

/// Whether bit `i` of `x` is set, counting from the least significant bit.
/// Indices outside `0 .. 64` hold no bit.
pub open spec fn bit_is_set(x: u64, i: int) -> bool {
    0 <= i < 64 && (x >> (i as u64)) & 1u64 == 1u64
}

/// How many bits it takes to write `x`: the index of its highest set bit
/// plus one, and zero for zero.
pub open spec fn bit_length(x: u64) -> nat
    decreases x,
{
    if x == 0 {
        0
    } else {
        1 + bit_length(x / 2)
    }
}

/// The number that stands for one bool in a listing: 1 or 0.
pub open spec fn bit_entry(b: bool) -> u64 {
    if b {
        1
    } else {
        0
    }
}

/// The bools of `x` as 1s and 0s, from bit 0 up to its highest set bit.
pub open spec fn bits_of(x: u64) -> Seq<u64> {
    Seq::new(bit_length(x), |i: int| bit_entry(bit_is_set(x, i)))
}

/// `x` with bit `i` set to `value` and every other bit kept.
pub open spec fn with_bit(x: u64, i: int, value: bool) -> u64 {
    if value {
        x | (1u64 << (i as u64))
    } else {
        x & !(1u64 << (i as u64))
    }
}

/// The number that a listing of bits, least significant first, stands for.
pub open spec fn bits_value(s: Seq<u64>) -> nat
    decreases s.len(),
{
    if s.len() == 0 {
        0
    } else {
        s[0] as nat + 2 * bits_value(s.drop_first())
    }
}

/// Calls `BitSlice::last_one` on the bits of `x` in `Lsb0` order.
/// bitvec returns the index of the last (most significant) set bit, or
/// `None` when no bit is set; as `x` has 64 bits the index is below 64 and
/// the bits above it are clear, so `x >> i` is exactly 1.
#[verifier::external_body]
fn lsb0_last_one(x: u64) -> (r: Option<usize>)
    ensures
        r is None <==> x == 0,
        r matches Some(i) ==> i < 64 && x >> (i as u64) == 1u64,
{
    x.view_bits::<Lsb0>().last_one()
}

/// Calls `BitSlice::get` on the bits of `x` in `Lsb0` order: the bit at
/// `index` for an index below 64, `None` past the end of the 64 bits.
#[verifier::external_body]
fn lsb0_get(x: u64, index: usize) -> (r: Option<bool>)
    ensures
        index < 64 ==> r == Some((x >> (index as u64)) & 1u64 == 1u64),
        index >= 64 ==> r is None,
{
    match x.view_bits::<Lsb0>().get(index) {
        Some(bit) => Some(*bit),
        None => None,
    }
}

/// Calls `BitSlice::set` on the bits of `*x` in `Lsb0` order: writes
/// `value` into bit `index` and leaves the others. bitvec panics on an
/// index past the 64 bits, which the `requires` leaves out.
#[verifier::external_body]
fn lsb0_set(x: &mut u64, index: usize, value: bool)
    requires
        index < 64,
    ensures
        *final(x) == with_bit(*old(x), index as int, value),
{
    x.view_bits_mut::<Lsb0>().set(index, value)
}

/// Lists the bools of `integer` as 1s and 0s, from bit 0 up to its highest
/// set bit; an integer with no bit set lists nothing.
pub fn get_bits(integer: &u64) -> (bools: Vec<u64>)
    ensures
        bools@ == bits_of(*integer),
        bools@.len() <= 64,
        bools@.len() == 0 <==> *integer == 0,
        bools@.len() > 0 ==> bools@.last() == 1,
        bits_value(bools@) == *integer,
{
    let x = *integer;
    let mut bools: Vec<u64> = Vec::new();
    proof {
        lemma_bit_length_at_most(x, 64);
        lemma_bits_value(x);
        if x != 0 {
            lemma_top_bit_set(x);
        }
    }
    match lsb0_last_one(x) {
        Some(last_one) => {
            proof {
                lemma_bit_length_of_top(x, last_one as u64);
            }
            let end = last_one + 1;
            let mut i: usize = 0;
            while i < end
                invariant
                    i <= end,
                    end == bit_length(x),
                    end <= 64,
                    bools@ =~= Seq::new(i as nat, |j: int| bit_entry(bit_is_set(x, j))),
                decreases end - i,
            {
                match lsb0_get(x, i) {
                    Some(bit) => {
                        if bit {
                            bools.push(1);
                        } else {
                            bools.push(0);
                        }
                    },
                    None => {},
                }
                i += 1;
            }
        },
        None => {},
    }
    bools
}

/// Writes `value` into bit `index` of `integer`; the other bits stay.
pub fn set_bit(integer: &mut u64, index: usize, value: bool)
    requires
        index < 64,
    ensures
        *final(integer) == with_bit(*old(integer), index as int, value),
        bit_is_set(*final(integer), index as int) == value,
        forall|j: int| j != index ==> bit_is_set(*final(integer), j) == bit_is_set(*old(integer), j),
{
    let ghost before = *integer;
    lsb0_set(integer, index, value);
    proof {
        assert forall|j: int| j != index implies bit_is_set(*integer, j) == bit_is_set(before, j) by {
            lemma_bit_of_with_bit(before, index as int, value, j);
        }
        lemma_bit_of_with_bit(before, index as int, value, index as int);
    }
}

/// Reads bit `index` of `integer`; an index past the 64 bits is refused.
pub fn get_bit(integer: &u64, index: usize) -> (r: Result<bool, UserError>)
    ensures
        index < 64 ==> r == Ok::<bool, UserError>(bit_is_set(*integer, index as int)),
        index >= 64 ==> r matches Err(UserError::IndexOutOfRange),
{
    match lsb0_get(*integer, index) {
        Some(bit) => Ok(bit),
        None => Err(UserError::IndexOutOfRange),
    }
}

proof fn lemma_shift_zero(x: u64)
    ensures
        x >> 0u64 == x,
        (x >> 0u64) & 1u64 == x % 2,
{
    assert(x >> 0u64 == x) by (bit_vector);
    assert((x >> 0u64) & 1u64 == x % 2) by (bit_vector);
}

proof fn lemma_shift_half(x: u64, i: u64)
    requires
        1 <= i < 64,
    ensures
        (x / 2) >> ((i - 1) as u64) == x >> i,
{
    assert((x / 2) >> ((i - 1) as u64) == x >> i) by (bit_vector)
        requires
            1 <= i < 64,
    ;
}

proof fn lemma_top_nonzero(x: u64, i: u64)
    requires
        i < 64,
        x >> i == 1u64,
    ensures
        x != 0,
{
    assert(x >> i == 1u64 ==> x != 0) by (bit_vector);
}

/// Bit `j` of `x / 2` is bit `j + 1` of `x`.
proof fn lemma_bit_of_half(x: u64, j: int)
    requires
        0 <= j,
    ensures
        bit_is_set(x / 2, j) == bit_is_set(x, j + 1),
{
    if j < 63 {
        let k = j as u64;
        assert(((x / 2) >> k) & 1u64 == (x >> ((k + 1) as u64)) & 1u64) by (bit_vector)
            requires
                k < 63,
        ;
    } else if j == 63 {
        assert(((x / 2) >> 63u64) & 1u64 == 0u64) by (bit_vector);
    }
}

/// When the highest set bit of `x` is bit `i`, `x` takes `i + 1` bits.
proof fn lemma_bit_length_of_top(x: u64, i: u64)
    requires
        i < 64,
        x >> i == 1u64,
    ensures
        bit_length(x) == i + 1,
    decreases i,
{
    lemma_top_nonzero(x, i);
    if i == 0 {
        lemma_shift_zero(x);
        assert(x / 2 == 0);
        assert(bit_length(0) == 0);
    } else {
        lemma_shift_half(x, i);
        lemma_bit_length_of_top(x / 2, (i - 1) as u64);
    }
}

/// `x` takes at most `k` bits when all its bits from `k` up are clear.
proof fn lemma_bit_length_at_most(x: u64, k: u64)
    requires
        k <= 64,
        k == 64 || x >> k == 0,
    ensures
        bit_length(x) <= k,
    decreases x,
{
    if x != 0 {
        lemma_shift_zero(x);
        if k == 64 {
            assert((x / 2) >> 63u64 == 0) by (bit_vector);
            lemma_bit_length_at_most(x / 2, 63);
        } else {
            assert(k >= 1);
            lemma_shift_half(x, k);
            lemma_bit_length_at_most(x / 2, (k - 1) as u64);
        }
    }
}

/// The highest bit that `bit_length` counts is set.
proof fn lemma_top_bit_set(x: u64)
    requires
        x != 0,
    ensures
        bit_length(x) >= 1,
        bit_is_set(x, bit_length(x) - 1),
    decreases x,
{
    lemma_shift_zero(x);
    lemma_bit_length_at_most(x, 64);
    if x / 2 == 0 {
        assert(bit_length(0) == 0);
        assert(x == 1);
    } else {
        lemma_top_bit_set(x / 2);
        lemma_bit_of_half(x, bit_length(x / 2) - 1);
    }
}

/// Reading the listing back as a number gives the integer: no bit is lost.
proof fn lemma_bits_value(x: u64)
    ensures
        bits_value(bits_of(x)) == x,
    decreases x,
{
    if x == 0 {
        assert(bits_of(x) =~= Seq::<u64>::empty());
    } else {
        let s = bits_of(x);
        lemma_bits_value(x / 2);
        assert forall|j: int| 0 <= j < s.drop_first().len() implies s.drop_first()[j] == bits_of(
            x / 2,
        )[j] by {
            lemma_bit_of_half(x, j);
        }
        assert(s.drop_first() =~= bits_of(x / 2));
        lemma_shift_zero(x);
        assert(s[0] == x % 2);
    }
}

/// What writing one bit does to every bit.
proof fn lemma_bit_of_with_bit(x: u64, i: int, value: bool, j: int)
    requires
        0 <= i < 64,
    ensures
        bit_is_set(with_bit(x, i, value), j) == if j == i {
            value
        } else {
            bit_is_set(x, j)
        },
{
    if 0 <= j < 64 {
        let a = i as u64;
        let b = j as u64;
        if value {
            assert(((x | (1u64 << a)) >> b) & 1u64 == if a == b {
                1u64
            } else {
                (x >> b) & 1u64
            }) by (bit_vector)
                requires
                    a < 64,
                    b < 64,
            ;
        } else {
            assert(((x & !(1u64 << a)) >> b) & 1u64 == if a == b {
                0u64
            } else {
                (x >> b) & 1u64
            }) by (bit_vector)
                requires
                    a < 64,
                    b < 64,
            ;
        }
    }
}

/// Reading a bit back after writing it gives what was written, and writing
/// a bit leaves every other bit as it was.
pub proof fn lemma_get_after_set(x: u64, index: int, value: bool, other: int)
    requires
        0 <= index < 64,
    ensures
        bit_is_set(with_bit(x, index, value), index) == value,
        other != index ==> bit_is_set(with_bit(x, index, value), other) == bit_is_set(x, other),
{
    lemma_bit_of_with_bit(x, index, value, index);
    lemma_bit_of_with_bit(x, index, value, other);
}

/// The listing of an integer's bits loses nothing: read back as a number
/// it gives the integer, so two integers with the same listing are equal.
pub proof fn lemma_bits_roundtrip(x: u64, y: u64)
    ensures
        bits_value(bits_of(x)) == x,
        bits_of(x) == bits_of(y) ==> x == y,
{
    lemma_bits_value(x);
    lemma_bits_value(y);
}

/// Every bit from `bit_length(x)` up is clear.
proof fn lemma_high_bits_clear(x: u64, i: int)
    requires
        bit_length(x) <= i,
    ensures
        !bit_is_set(x, i),
    decreases x,
{
    if x == 0 {
        if 0 <= i < 64 {
            let k = i as u64;
            assert((0u64 >> k) & 1u64 == 0u64) by (bit_vector);
        }
    } else {
        lemma_high_bits_clear(x / 2, i - 1);
        lemma_bit_of_half(x, i - 1);
    }
}

/// The listing shows exactly the set bits: bit `i` is set when the listing
/// has a 1 at `i`, and clear when it has a 0 there or ends before `i`.
pub proof fn lemma_listing_matches_bits(x: u64, i: int)
    requires
        0 <= i < 64,
    ensures
        bit_is_set(x, i) <==> (i < bits_of(x).len() && bits_of(x)[i] == 1),
{
    if i >= bit_length(x) {
        lemma_high_bits_clear(x, i);
    }
}

/// The listing of an integer's bools holds, at each position `i`, bit `i`
/// of the integer (1 or 0, least significant first); it is empty for 0,
/// otherwise it ends with the highest set bit, which is 1, and every bit
/// past its end is clear.
pub proof fn law_get_bits(x: u64, bools: Vec<u64>)
    requires
        call_ensures(get_bits, (&x,), bools),
    ensures
        bools@.len() <= 64,
        forall|i: int| 0 <= i < bools@.len() ==> #[trigger] bools@[i] == (x >> (i as u64)) & 1u64,
        forall|j: u64| bools@.len() <= j < 64 ==> (x >> j) & 1u64 == 0u64,
        (bools@.len() == 0) == (x == 0),
        bools@.len() > 0 ==> bools@[bools@.len() - 1] == 1,
{
    assert forall|i: int| 0 <= i < bools@.len() implies #[trigger] bools@[i] == (x >> (i as u64))
        & 1u64 by {
        lemma_listing_matches_bits(x, i);
        let k = i as u64;
        assert((x >> k) & 1u64 == 1u64 || (x >> k) & 1u64 == 0u64) by (bit_vector);
    }
    assert forall|j: u64| bools@.len() <= j < 64 implies (x >> j) & 1u64 == 0u64 by {
        lemma_listing_matches_bits(x, j as int);
        assert((x >> j) & 1u64 == 1u64 || (x >> j) & 1u64 == 0u64) by (bit_vector);
    }
}

} // verus!

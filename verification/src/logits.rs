//! Single-precision scores as bit patterns, and their largest element.
//!
//! The scores that a decoder model returns are IEEE 754 single-precision
//! numbers.  They are held here as their 32-bit patterns, and compared as the
//! numbers that the patterns stand for.
use vstd::prelude::*;

verus! {

/// The bit pattern of the infinity below every finite number.
pub const NEG_INFINITY_BITS: u32 = 0xff80_0000;

/// Whether a pattern stands for no number: all exponent bits set and a
/// fraction that is not zero.
pub open spec fn is_nan(bits: u32) -> bool {
    magnitude(bits) > 0x7f80_0000
}

/// A pattern without its sign bit, as an integer.
pub open spec fn magnitude(bits: u32) -> int {
    if bits < 0x8000_0000 {
        bits as int
    } else {
        bits - 0x8000_0000
    }
}

/// The place of a pattern in the order of the numbers: patterns are sign and
/// magnitude, and a larger magnitude stands for a number further from zero.
/// The two zeros share one place.
pub open spec fn rank(bits: u32) -> int {
    if bits < 0x8000_0000 {
        magnitude(bits)
    } else {
        -magnitude(bits)
    }
}

/// Whether the number `a` is greater than the number `b`; no comparison with
/// a pattern that is not a number holds.
pub open spec fn exceeds(a: u32, b: u32) -> bool {
    !is_nan(a) && !is_nan(b) && rank(a) > rank(b)
}

/// Whether a score can be picked: a number above minus infinity.
pub open spec fn eligible(bits: u32) -> bool {
    exceeds(bits, NEG_INFINITY_BITS)
}

/// Whether `r` is the first position of a greatest eligible score of `s`.
pub open spec fn is_first_max(s: Seq<u32>, r: int) -> bool {
    &&& 0 <= r < s.len()
    &&& eligible(s[r])
    &&& forall|j: int| #![trigger s[j]] 0 <= j < s.len() ==> !exceeds(s[j], s[r])
    &&& forall|j: int| #![trigger s[j]] 0 <= j < r && eligible(s[j]) ==> exceeds(s[r], s[j])
}

/// The first position of a greatest eligible score, and 0 where no score is
/// eligible.
pub open spec fn argmax_of(s: Seq<u32>) -> int {
    if exists|r: int| is_first_max(s, r) {
        choose|r: int| is_first_max(s, r)
    } else {
        0
    }
}

/// Two first positions of a greatest score are the same.
proof fn lemma_first_max_unique(s: Seq<u32>, a: int, b: int)
    requires
        is_first_max(s, a),
        is_first_max(s, b),
    ensures
        a == b,
{
    if a < b {
        assert(exceeds(s[b], s[a]));
    } else if b < a {
        assert(exceeds(s[a], s[b]));
    }
}

/// `argmax_of` is the position that [`is_first_max`] describes.
pub proof fn law_argmax_is_first_max(s: Seq<u32>, r: int)
    requires
        is_first_max(s, r),
    ensures
        argmax_of(s) == r,
{
    lemma_first_max_unique(s, r, argmax_of(s));
}

/// In a non-empty sequence of numbers, the score at the position returned is
/// at least every score, and greater than every score before it.
pub proof fn law_argmax_of_numbers(s: Seq<u32>)
    requires
        s.len() > 0,
        forall|j: int| 0 <= j < s.len() ==> !is_nan(#[trigger] s[j]),
    ensures
        0 <= argmax_of(s) < s.len(),
        forall|j: int| 0 <= j < s.len() ==> rank(#[trigger] s[j]) <= rank(s[argmax_of(s)]),
        forall|j: int| 0 <= j < argmax_of(s) ==> rank(#[trigger] s[j]) < rank(s[argmax_of(s)]),
{
    if exists|j: int| 0 <= j < s.len() && eligible(#[trigger] s[j]) {
        let j = choose|j: int| 0 <= j < s.len() && eligible(#[trigger] s[j]);
        lemma_first_max_exists(s, j);
        let r = argmax_of(s);
        assert forall|k: int| 0 <= k < r implies rank(#[trigger] s[k]) < rank(s[r]) by {
            assert(eligible(s[k]) || rank(s[k]) <= rank(NEG_INFINITY_BITS));
        }
    } else {
        assert forall|r: int| !is_first_max(s, r) by {
            if is_first_max(s, r) {
                assert(eligible(s[r]));
            }
        }
        assert(argmax_of(s) == 0);
        assert forall|k: int| 0 <= k < s.len() implies rank(#[trigger] s[k]) <= rank(s[0]) by {
            assert(!eligible(s[k]));
            assert(!eligible(s[0]));
            assert(!is_nan(s[k]) && !is_nan(s[0]));
        }
    }
}

/// A sequence with an eligible score has a first greatest one.
proof fn lemma_first_max_exists(s: Seq<u32>, witness: int)
    requires
        0 <= witness < s.len(),
        eligible(s[witness]),
    ensures
        exists|r: int| is_first_max(s, r),
        is_first_max(s, argmax_of(s)),
    decreases s.len(),
{
    let last = s.len() - 1;
    let init = s.drop_last();
    if exists|j: int| 0 <= j < init.len() && eligible(#[trigger] init[j]) {
        let j = choose|j: int| 0 <= j < init.len() && eligible(#[trigger] init[j]);
        lemma_first_max_exists(init, j);
        let r = argmax_of(init);
        if exceeds(s[last], s[r]) {
            assert forall|k: int| #![trigger s[k]] 0 <= k < s.len() implies !exceeds(s[k], s[last]) by {
                if k < last {
                    assert(init[k] == s[k]);
                }
            }
            assert forall|k: int| #![trigger s[k]] 0 <= k < last && eligible(s[k]) implies exceeds(
                s[last],
                s[k],
            ) by {
                assert(init[k] == s[k]);
            }
            assert(is_first_max(s, last));
        } else {
            assert forall|k: int| #![trigger s[k]] 0 <= k < s.len() implies !exceeds(s[k], s[r]) by {
                if k < last {
                    assert(init[k] == s[k]);
                }
            }
            assert forall|k: int| #![trigger s[k]] 0 <= k < r && eligible(s[k]) implies exceeds(
                s[r],
                s[k],
            ) by {
                assert(init[k] == s[k]);
            }
            assert(init[r] == s[r]);
            assert(is_first_max(s, r));
        }
    } else {
        assert forall|k: int| #![trigger s[k]] 0 <= k < last implies !eligible(s[k]) by {
            assert(init[k] == s[k]);
        }
        assert(witness == last);
        assert(is_first_max(s, last));
    }
}

/// Whether the number `a` is greater than the number `b`.
fn bits_exceed(a: u32, b: u32) -> (r: bool)
    ensures
        r == exceeds(a, b),
{
    let a_magnitude: u32 = if a < 0x8000_0000 { a } else { a - 0x8000_0000 };
    let b_magnitude: u32 = if b < 0x8000_0000 { b } else { b - 0x8000_0000 };
    if a_magnitude > 0x7f80_0000 || b_magnitude > 0x7f80_0000 {
        false
    } else if a < 0x8000_0000 {
        if b < 0x8000_0000 {
            a_magnitude > b_magnitude
        } else {
            a_magnitude > 0 || b_magnitude > 0
        }
    } else {
        b >= 0x8000_0000 && a_magnitude < b_magnitude
    }
}

/// Return the index of the maximum element in a slice.
///
/// The first one where several are greatest; patterns that are not numbers
/// are passed over; 0 where nothing is above minus infinity.
pub fn argmax(slice: &[u32]) -> (r: usize)
    ensures
        r == argmax_of(slice@),
        slice@.len() > 0 ==> r < slice@.len(),
        (exists|i: int| 0 <= i < slice@.len() && eligible(#[trigger] slice@[i]))
            ==> is_first_max(slice@, r as int),
        (forall|i: int| 0 <= i < slice@.len() ==> !eligible(#[trigger] slice@[i])) ==> r == 0,
        slice@.len() > 0 ==> {
            &&& forall|i: int|
                0 <= i < slice@.len() ==> !exceeds(#[trigger] slice@[i], slice@[r as int])
            &&& forall|i: int|
                0 <= i < r ==> is_nan(#[trigger] slice@[i]) || exceeds(slice@[r as int], slice@[i])
            &&& !exceeds(slice@[r as int], 0xff80_0000) ==> r == 0 && forall|i: int|
                0 <= i < slice@.len() ==> !exceeds(#[trigger] slice@[i], 0xff80_0000)
        },
{
    let mut max_idx: usize = 0;
    let mut max_val: u32 = NEG_INFINITY_BITS;
    let mut i: usize = 0;
    while i < slice.len()
        invariant
            i <= slice@.len(),
            max_idx == 0 || max_idx < i,
            !is_nan(max_val),
            forall|j: int| #![trigger slice@[j]] 0 <= j < i ==> !exceeds(slice@[j], max_val),
            max_val == NEG_INFINITY_BITS ==> max_idx == 0,
            max_val != NEG_INFINITY_BITS ==> {
                &&& max_idx < i
                &&& max_val == slice@[max_idx as int]
                &&& eligible(max_val)
                &&& forall|j: int| #![trigger slice@[j]] 0 <= j < max_idx && eligible(slice@[j])
                    ==> exceeds(max_val, slice@[j])
            },
        decreases slice@.len() - i,
    {
        let v: u32 = slice[i];
        if bits_exceed(v, max_val) {
            max_val = v;
            max_idx = i;
        }
        i += 1;
    }
    proof {
        if slice@.len() > 0 {
            law_argmax_is_greatest(slice@);
        }
        if max_val != NEG_INFINITY_BITS {
            assert(is_first_max(slice@, max_idx as int));
            law_argmax_is_first_max(slice@, max_idx as int);
            assert(eligible(slice@[max_idx as int]));
        } else {
            assert forall|k: int| !is_first_max(slice@, k) by {
                if is_first_max(slice@, k) {
                    assert(eligible(slice@[k]));
                }
            }
        }
    }
    max_idx
}

/// The order of the patterns is that of the numbers they stand for: among
/// positive ones the larger pattern is the greater number, among negative ones
/// the smaller, a positive one is greater than a negative one unless both are
/// zeros, and what is not a number is never greater and never exceeded.
pub proof fn law_exceeds_is_the_order_of_numbers(a: u32, b: u32)
    ensures
        a <= 0x7f80_0000 && b <= 0x7f80_0000 ==> (exceeds(a, b) <==> a > b),
        0x8000_0000 <= a <= 0xff80_0000 && 0x8000_0000 <= b <= 0xff80_0000 ==> (exceeds(a, b)
            <==> a < b),
        a <= 0x7f80_0000 && 0x8000_0000 <= b <= 0xff80_0000 ==> (exceeds(a, b) <==> !(a == 0 && b
            == 0x8000_0000)),
        0x8000_0000 <= a <= 0xff80_0000 && b <= 0x7f80_0000 ==> !exceeds(a, b),
        0x7f80_0000 < a < 0x8000_0000 || 0xff80_0000 < a ==> !exceeds(a, b),
        0x7f80_0000 < b < 0x8000_0000 || 0xff80_0000 < b ==> !exceeds(a, b),
{
}

/// The patterns that stand for no number are those above the two infinities,
/// and the eligible ones all others but minus infinity.
pub proof fn law_numbers_and_eligible_scores(bits: u32)
    ensures
        is_nan(bits) <==> 0x7f80_0000 < bits < 0x8000_0000 || 0xff80_0000 < bits,
        eligible(bits) <==> bits <= 0x7f80_0000 || 0x8000_0000 <= bits < 0xff80_0000,
{
}

/// No score exceeds the one that is picked, it exceeds every number before it,
/// and a score that is not above minus infinity is only picked at the first
/// position, where no score is above minus infinity.
pub proof fn law_argmax_is_greatest(s: Seq<u32>)
    requires
        s.len() > 0,
    ensures
        0 <= argmax_of(s) < s.len(),
        forall|i: int| 0 <= i < s.len() ==> !exceeds(#[trigger] s[i], s[argmax_of(s)]),
        forall|i: int|
            0 <= i < argmax_of(s) ==> is_nan(#[trigger] s[i]) || exceeds(s[argmax_of(s)], s[i]),
        !exceeds(s[argmax_of(s)], 0xff80_0000) ==> argmax_of(s) == 0 && forall|i: int|
            0 <= i < s.len() ==> !exceeds(#[trigger] s[i], 0xff80_0000),
{
    if exists|j: int| 0 <= j < s.len() && eligible(#[trigger] s[j]) {
        let j = choose|j: int| 0 <= j < s.len() && eligible(#[trigger] s[j]);
        lemma_first_max_exists(s, j);
        let r = argmax_of(s);
        assert forall|i: int| 0 <= i < r implies is_nan(#[trigger] s[i]) || exceeds(s[r], s[i]) by {
            if !is_nan(s[i]) && !eligible(s[i]) {
                assert(rank(s[i]) <= rank(NEG_INFINITY_BITS));
            }
        }
    } else {
        assert forall|r: int| !is_first_max(s, r) by {
            if is_first_max(s, r) {
                assert(eligible(s[r]));
            }
        }
        assert(argmax_of(s) == 0);
        assert forall|i: int| 0 <= i < s.len() implies !exceeds(#[trigger] s[i], s[0]) by {
            assert(!eligible(s[i]));
            assert(!eligible(s[0]));
        }
    }
}

/// Nothing is picked from no scores but the position zero.
pub proof fn law_argmax_of_nothing(s: Seq<u32>)
    requires
        s.len() == 0,
    ensures
        argmax_of(s) == 0,
{
}

} // verus!

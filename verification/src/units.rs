//! Layout units.
//!
//! Every length and coordinate of the engine is a whole number of layout
//! units held in an `i32`. Results are computed exactly in a wider type; a
//! value that is stored saturates at the ends of the `i32` range, so no
//! operation of the engine can overflow.

use vstd::prelude::*;

verus! {

/// The stored value of an exact result: the nearest `i32`.
pub open spec fn clamp(x: int) -> i32 {
    if x < i32::MIN {
        i32::MIN
    } else if x > i32::MAX {
        i32::MAX
    } else {
        x as i32
    }
}

/// The larger of two numbers.
pub open spec fn larger(a: int, b: int) -> int {
    if a >= b {
        a
    } else {
        b
    }
}

/// The total width of the gaps between `count` consecutive children.
pub open spec fn gap_total(spacing: int, count: int) -> int {
    if count > 0 {
        spacing * (count - 1)
    } else {
        0
    }
}

/// The part of `available` that a flex factor of `factor` receives when the
/// factors of all competitors add up to `total`, rounded down. Nothing is
/// handed out when the factors add up to zero.
pub open spec fn flex_share(available: int, factor: int, total: int) -> int {
    if total > 0 {
        (available * factor) / total
    } else {
        0
    }
}

/// The sum of a sequence of numbers.
pub open spec fn total(s: Seq<int>) -> int
    decreases s.len(),
{
    if s.len() == 0 {
        0
    } else {
        total(s.drop_last()) + s.last()
    }
}

/// The largest of a sequence of numbers, and zero for an empty sequence or
/// one of negative numbers only.
pub open spec fn highest(s: Seq<int>) -> int
    decreases s.len(),
{
    if s.len() == 0 {
        0
    } else {
        larger(highest(s.drop_last()), s.last())
    }
}

/// A share never exceeds what is shared, in either direction.
pub proof fn flex_share_bounded(available: int, factor: int, total: int)
    requires
        0 <= factor <= total,
    ensures
        available >= 0 ==> 0 <= flex_share(available, factor, total) <= available,
        available < 0 ==> available <= flex_share(available, factor, total) <= 0,
{
    if total > 0 {
        assert(available >= 0 ==> 0 <= (available * factor) / total <= available)
            by (nonlinear_arith)
            requires
                0 <= factor <= total,
                total > 0,
        ;
        assert(available < 0 ==> available <= (available * factor) / total <= 0)
            by (nonlinear_arith)
            requires
                0 <= factor <= total,
                total > 0,
        ;
    }
}

/// The sum and the largest element of a prefix that is one element longer.
pub proof fn total_step(s: Seq<int>, i: int)
    requires
        0 <= i < s.len(),
    ensures
        total(s.take(i + 1)) == total(s.take(i)) + s[i],
        highest(s.take(i + 1)) == larger(highest(s.take(i)), s[i]),
{
    assert(s.take(i + 1).drop_last() =~= s.take(i));
}

/// A sum of numbers that are not negative is at least each of them, and not
/// negative itself.
pub proof fn total_covers(s: Seq<int>, i: int)
    requires
        0 <= i < s.len(),
        forall|j: int| 0 <= j < s.len() ==> #[trigger] s[j] >= 0,
    ensures
        total(s) >= s[i],
        total(s) >= 0,
    decreases s.len(),
{
    let front = s.drop_last();
    assert forall|j: int| 0 <= j < front.len() implies #[trigger] front[j] >= 0 by {
        assert(front[j] == s[j]);
    }
    if i < s.len() - 1 {
        total_covers(front, i);
    } else if s.len() > 1 {
        total_covers(front, 0);
    } else {
    }
}

/// The sum of equal numbers is their number times one of them.
pub proof fn total_of_equal(s: Seq<int>, each: int)
    requires
        forall|i: int| 0 <= i < s.len() ==> #[trigger] s[i] == each,
    ensures
        total(s) == s.len() * each,
    decreases s.len(),
{
    if s.len() > 0 {
        let front = s.drop_last();
        assert forall|i: int| 0 <= i < front.len() implies #[trigger] front[i] == each by {}
        total_of_equal(front, each);
        assert(front.len() * each + each == s.len() * each) by (nonlinear_arith)
            requires
                front.len() + 1 == s.len(),
        ;
    }
}

/// Competitors with equal factors share evenly: each of `count` gets the
/// `count`-th part, rounded down.
pub proof fn equal_shares(available: int, factor: int, count: int)
    requires
        factor > 0,
        count > 0,
    ensures
        flex_share(available, factor, count * factor) == available / count,
{
    let q = available / count;
    let r = available % count;
    vstd::arithmetic::div_mod::lemma_fundamental_div_mod(available, count);
    assert(count * factor > 0) by (nonlinear_arith)
        requires
            factor > 0,
            count > 0,
    ;
    assert(available * factor == q * (count * factor) + r * factor) by (nonlinear_arith)
        requires
            available == count * q + r,
    ;
    assert(0 <= r * factor < count * factor) by (nonlinear_arith)
        requires
            0 <= r < count,
            factor > 0,
    ;
    vstd::arithmetic::div_mod::lemma_fundamental_div_mod_converse(
        available * factor,
        count * factor,
        q,
        r * factor,
    );
}

/// Saturates a wide value.
pub fn narrow(x: i128) -> (r: i32)
    ensures
        r == clamp(x as int),
{
    if x < i32::MIN as i128 {
        i32::MIN
    } else if x > i32::MAX as i128 {
        i32::MAX
    } else {
        x as i32
    }
}

/// Division that rounds down, also for a negative dividend.
pub fn floor_div(p: i128, t: i128) -> (q: i128)
    requires
        t > 0,
        p > i128::MIN,
    ensures
        q == p as int / t as int,
{
    if p >= 0 {
        p / t
    } else {
        let m: i128 = -(p + 1);
        let d: i128 = m / t;
        assert(-d - 1 == p as int / t as int) by (nonlinear_arith)
            requires
                t > 0,
                p < 0,
                m == -(p + 1),
                d == m as int / t as int,
        ;
        -d - 1
    }
}

/// The exact width of the gaps between `count` children.
pub fn gaps(spacing: u32, count: usize) -> (r: i128)
    ensures
        r == gap_total(spacing as int, count as int),
        0 <= r <= 0xFFFF_FFFF * 0xFFFF_FFFF_FFFF_FFFF,
{
    if count == 0 {
        0
    } else {
        let s: i128 = spacing as i128;
        let c: i128 = (count - 1) as i128;
        assert(0 <= s * c <= 0xFFFF_FFFF * 0xFFFF_FFFF_FFFF_FFFF) by (nonlinear_arith)
            requires
                0 <= s <= 0xFFFF_FFFF,
                0 <= c <= 0xFFFF_FFFF_FFFF_FFFF,
        ;
        s * c
    }
}

/// The share of `available` that goes to a flex factor of `factor`.
pub fn share(available: i32, factor: u8, total: u128) -> (r: i32)
    requires
        factor as int <= total,
        total <= i128::MAX,
    ensures
        r == flex_share(available as int, factor as int, total as int),
{
    if total == 0 {
        return 0;
    }
    let a: i128 = available as i128;
    let f: i128 = factor as i128;
    let t: i128 = total as i128;
    assert(-0x8000_0000 * 255 <= a * f <= 0x8000_0000 * 255) by (nonlinear_arith)
        requires
            -0x8000_0000 <= a < 0x8000_0000,
            0 <= f <= 255,
    ;
    let q: i128 = floor_div(a * f, t);
    proof {
        flex_share_bounded(available as int, factor as int, total as int);
    }
    q as i32
}

} // verus!

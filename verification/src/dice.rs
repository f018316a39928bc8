//! Dice rolling: uniform draws from a process-wide random source.

use rand::Rng;
use vstd::prelude::*;

verus! {

/// Relies on `rand::Rng::gen_range` on `rand::thread_rng()`: returns a
/// uniformly distributed integer in the inclusive range `lo..=hi`, which is
/// nonempty because `lo <= hi`.
#[verifier::external_body]
pub(crate) fn rand_range_u8(lo: u8, hi: u8) -> (r: u8)
    requires
        lo <= hi,
    ensures
        lo <= r <= hi,
{
    rand::thread_rng().gen_range(lo..=hi)
}

/// Rolls one die with `sides` faces: a uniform draw from [1, sides].
/// A zero-sided die degrades gracefully to 0 instead of failing.
pub fn roll_d(sides: u8) -> (r: u8)
    ensures
        sides == 0 ==> r == 0,
        sides > 0 ==> 1 <= r <= sides,
{
    if sides == 0 {
        return 0;
    }
    rand_range_u8(1, sides)
}

/// Rolls `num_dice` independent dice with `sides` faces each and returns
/// their sum.
pub fn roll_ndx(num_dice: u8, sides: u8) -> (r: u8)
    requires
        num_dice * sides <= u8::MAX,
    ensures
        r <= num_dice * sides,
        sides > 0 ==> num_dice <= r,
{
    let mut total: u8 = 0;
    let mut i: u8 = 0;
    while i < num_dice
        invariant
            i <= num_dice,
            num_dice * sides <= u8::MAX,
            total <= i * sides,
            sides > 0 ==> total >= i,
        decreases num_dice - i,
    {
        proof {
            assert((i + 1) * sides == i * sides + sides) by (nonlinear_arith);
            assert(i + 1 <= num_dice ==> (i + 1) * sides <= num_dice * sides)
                by (nonlinear_arith);
        }
        let d = roll_d(sides);
        total = total + d;
        i = i + 1;
    }
    total
}

} // verus!

//! The progress calculator: how many cells of a bar of a given width are
//! drawn as elapsed, given the remaining and total spans.
use vstd::prelude::*;
use vstd::arithmetic::div_mod::lemma_div_is_ordered;
use vstd::arithmetic::div_mod::lemma_div_by_multiple;

verus! {

/// The fill count: the elapsed fraction of the total, scaled by the bar
/// width and truncated toward zero.
pub open spec fn spec_bar_fill(remaining: int, total: int, bar_size: int) -> int {
    ((total - remaining) * bar_size) / total
}

/// Computes the fill count of the progress bar. The fill never exceeds
/// the bar width.
pub fn num_bar_fill(remaining: u64, duration: u64, bar_size: u16) -> (r: u16)
    requires
        0 < duration,
        remaining <= duration,
    ensures
        r == spec_bar_fill(remaining as int, duration as int, bar_size as int),
        r <= bar_size,
{
    let elapsed: u128 = (duration - remaining) as u128;
    proof {
        assert(elapsed * (bar_size as u128) <= u64::MAX as int * u16::MAX as int)
            by (nonlinear_arith)
            requires
                0 <= elapsed <= u64::MAX,
                bar_size <= u16::MAX,
        ;
    }
    let num: u128 = elapsed * (bar_size as u128);
    let f: u128 = num / (duration as u128);
    proof {
        let t = duration as int;
        let r0 = remaining as int;
        let w = bar_size as int;
        assert((t - r0) * w <= t * w) by (nonlinear_arith)
            requires
                0 <= r0 <= t,
                0 <= w,
        ;
        lemma_div_is_ordered((t - r0) * w, t * w, t);
        lemma_div_by_multiple(w, t);
        assert((t * w) / t == w) by {
            assert(t * w == w * t) by (nonlinear_arith);
        }
    }
    f as u16
}

/// For a fixed total and bar width, the fill count never decreases as the
/// elapsed fraction grows, that is, as the remaining span shrinks.
pub proof fn lemma_bar_fill_monotonic(r1: int, r2: int, total: int, bar_size: int)
    requires
        0 < total,
        0 <= r1 <= r2 <= total,
        0 <= bar_size,
    ensures
        spec_bar_fill(r2, total, bar_size) <= spec_bar_fill(r1, total, bar_size),
{
    assert((total - r2) * bar_size <= (total - r1) * bar_size) by (nonlinear_arith)
        requires
            0 <= r1 <= r2 <= total,
            0 <= bar_size,
    ;
    lemma_div_is_ordered((total - r2) * bar_size, (total - r1) * bar_size, total);
}

} // verus!

use vstd::prelude::*;

use crate::math::fits_i32;

verus! {

/// What rendering a frame came to.
#[derive(Clone, Copy, Debug, PartialEq, Eq, Structural)]
pub enum RenderResult {
    /// A frame was drawn and handed to the display.
    Submitted,
    /// Nothing changed, so nothing was drawn.
    NoDamage,
    /// This backend draws at another time.
    Skipped,
}

/// The mode that a newly connected monitor gets: the first mode it prefers,
/// or its first mode when it prefers none; `None` when it has no mode.
pub fn preferred_mode(preferred: &Vec<bool>) -> (r: Option<usize>)
    ensures
        preferred@.len() == 0 ==> r is None,
        preferred@.len() > 0 ==> (r matches Some(i) && i < preferred@.len() && (
            if exists|j: int| 0 <= j < preferred@.len() && #[trigger] preferred@[j] {
                preferred@[i as int] && forall|j: int| 0 <= j < i ==> !#[trigger] preferred@[j]
            } else {
                i == 0
            }
        )),
{
    let mut i: usize = 0;
    while i < preferred.len()
        invariant
            0 <= i <= preferred@.len(),
            forall|j: int| 0 <= j < i ==> !#[trigger] preferred@[j],
        decreases preferred@.len() - i,
    {
        if preferred[i] {
            return Some(i);
        }
        i = i + 1;
    }
    if preferred.len() == 0 {
        None
    } else {
        Some(0)
    }
}

/// The sum of the first `n` widths.
pub open spec fn width_sum(widths: Seq<i32>, n: int) -> int
    decreases n,
{
    if n <= 0 {
        0
    } else {
        width_sum(widths, n - 1) + widths[n - 1]
    }
}

/// Where a newly connected monitor goes: right of all the monitors already
/// in the layout, at the sum of their widths.
pub fn next_output_x(widths: &Vec<i32>) -> (x: i32)
    requires
        forall|n: int| 0 <= n <= widths@.len() ==> fits_i32(#[trigger] width_sum(widths@, n)),
    ensures
        x == width_sum(widths@, widths@.len() as int),
{
    let mut acc: i32 = 0;
    let mut i: usize = 0;
    while i < widths.len()
        invariant
            0 <= i <= widths@.len(),
            forall|n: int| 0 <= n <= widths@.len() ==> fits_i32(#[trigger] width_sum(widths@, n)),
            acc == width_sum(widths@, i as int),
        decreases widths@.len() - i,
    {
        assert(fits_i32(width_sum(widths@, i + 1)));
        acc = acc + widths[i];
        i = i + 1;
    }
    acc
}

/// The outputs to draw now: those not waiting for their last frame to be
/// shown, in order.
pub fn surfaces_to_render(pending: &Vec<bool>) -> (r: Vec<usize>)
    ensures
        forall|t: int| 0 <= t < r@.len() ==> #[trigger] r@[t] < pending@.len() && !pending@[r@[t] as int],
        forall|a: int, b: int| 0 <= a < b < r@.len() ==> #[trigger] r@[a] < #[trigger] r@[b],
        forall|j: int| 0 <= j < pending@.len() && !#[trigger] pending@[j] ==> r@.contains(j as usize),
{
    let mut out: Vec<usize> = Vec::new();
    let mut i: usize = 0;
    while i < pending.len()
        invariant
            0 <= i <= pending@.len(),
            forall|t: int| 0 <= t < out@.len() ==> #[trigger] out@[t] < i && !pending@[out@[t] as int],
            forall|a: int, b: int| 0 <= a < b < out@.len() ==> #[trigger] out@[a] < #[trigger] out@[b],
            forall|j: int| 0 <= j < i && !#[trigger] pending@[j] ==> out@.contains(j as usize),
        decreases pending@.len() - i,
    {
        if !pending[i] {
            let ghost before = out@;
            out.push(i);
            proof {
                assert forall|j: int| 0 <= j < i + 1 && !#[trigger] pending@[j] implies out@.contains(j as usize) by {
                    if j < i {
                        let t = choose|t: int| 0 <= t < before.len() && before[t] == j as usize;
                        assert(out@[t] == j as usize);
                    } else {
                        assert(out@[out@.len() - 1] == j as usize);
                    }
                }
            }
        }
        i = i + 1;
    }
    out
}

} // verus!

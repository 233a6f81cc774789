use std::collections::VecDeque;
use vstd::prelude::*;

verus! {

/// The most points that the plot keeps.
pub const MAX_PLOT_HISTORY: usize = 1000;

/// Appends `pt` to a history of at most `max` points, dropping the oldest point when
/// the history grows beyond `max`.
pub fn push_bounded<T>(pts: &mut VecDeque<T>, pt: T, max: usize)
    requires
        old(pts)@.len() < usize::MAX,
    ensures
        old(pts)@.len() + 1 <= max ==> final(pts)@ == old(pts)@.push(pt),
        old(pts)@.len() + 1 > max ==> final(pts)@ == old(pts)@.push(pt).drop_first(),
{
    pts.push_back(pt);
    if max < pts.len() {
        pts.pop_front();
    }
}

} // verus!

use vstd::prelude::*;

pub mod point;
pub mod sequence;
pub mod sliding3;

verus! {

/// The smallest and the largest of `x0` and the elements of `xs`.
pub fn min_max(x0: i64, xs: &[i64]) -> (r: (i64, i64))
    ensures
        r.0 <= x0,
        x0 <= r.1,
        forall|i: int| 0 <= i < xs@.len() ==> r.0 <= #[trigger] xs@[i] && xs@[i] <= r.1,
        r.0 == x0 || xs@.contains(r.0),
        r.1 == x0 || xs@.contains(r.1),
{
    let mut min = x0;
    let mut max = x0;
    let mut i: usize = 0;
    while i < xs.len()
        invariant
            i <= xs@.len(),
            min <= x0 <= max,
            forall|j: int| 0 <= j < i ==> min <= #[trigger] xs@[j] && xs@[j] <= max,
            min == x0 || xs@.contains(min),
            max == x0 || xs@.contains(max),
        decreases xs@.len() - i,
    {
        let x = xs[i];
        if x < min {
            min = x;
        } else if max < x {
            max = x;
        }
        i += 1;
    }
    (min, max)
}

} // verus!

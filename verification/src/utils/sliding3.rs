use vstd::prelude::*;

verus! {

/// The window of length 3 of `s` that starts at `i`.
pub open spec fn window<T>(s: Seq<T>, i: int) -> Seq<T> {
    s.subrange(i, i + 3)
}

/// The number of windows of length 3 in a sequence of length `len`.
pub open spec fn window_count(len: nat) -> nat {
    if len < 3 {
        0
    } else {
        (len - 2) as nat
    }
}

/// A sliding window of length 3 over a sequence of items.
pub struct Sliding3<T> {
    items: Vec<T>,
    start: usize,
}

impl<T> Sliding3<T> {
    /// The items that the windows slide over.
    pub closed spec fn items(&self) -> Seq<T> {
        self.items@
    }

    /// Where the next window starts.
    pub closed spec fn start(&self) -> nat {
        self.start as nat
    }

    /// The windows that are still to come, in order.
    pub open spec fn remaining(&self) -> Seq<Seq<T>> {
        let n = window_count(self.items().len());
        let k = if self.start() < n { (n - self.start()) as nat } else { 0 };
        Seq::new(k, |j: int| window(self.items(), self.start() + j))
    }

    /// Windows over all of `inner`, from its first item on.
    pub fn new(inner: Vec<T>) -> (r: Self)
        ensures
            r.items() == inner@,
            r.start() == 0,
    {
        Sliding3 { items: inner, start: 0 }
    }
}

/// Windows over `n` items, before any is taken: there are `n - 2` of them (none for
/// fewer than 3 items), and the `j`-th holds the items `j`, `j + 1` and `j + 2`.
pub proof fn law_fresh_windows<T>(s: Sliding3<T>)
    requires
        s.start() == 0,
    ensures
        s.remaining().len() == window_count(s.items().len()),
        forall|j: int|
            0 <= j < s.remaining().len() ==> (#[trigger] s.remaining()[j]).len() == 3 && s.remaining()[j][0]
                == s.items()[j] && s.remaining()[j][1] == s.items()[j + 1] && s.remaining()[j][2]
                == s.items()[j + 2],
{
}

/// Windows still to come from any position: one for each start from the current one to
/// the last that leaves room for 3 items, and each holds the 3 items from its start on.
pub proof fn law_windows_from_start<T>(s: Sliding3<T>)
    ensures
        s.start() + 3 <= s.items().len() ==> s.remaining().len() == s.items().len() - 2 - s.start(),
        s.start() + 3 > s.items().len() ==> s.remaining().len() == 0,
        forall|j: int|
            0 <= j < s.remaining().len() ==> (#[trigger] s.remaining()[j]).len() == 3 && s.remaining()[j][0]
                == s.items()[s.start() + j] && s.remaining()[j][1] == s.items()[s.start() + j + 1]
                && s.remaining()[j][2] == s.items()[s.start() + j + 2],
{
}

impl<T: Copy> Sliding3<T> {
    /// The next window, or `None` once there is none left.
    pub fn next(&mut self) -> (r: Option<[T; 3]>)
        ensures
            final(self).items() == old(self).items(),
            old(self).remaining().len() == 0 ==> r is None && final(self).remaining().len() == 0,
            old(self).remaining().len() > 0 ==> (r matches Some(w) && w@ == old(
                self,
            ).remaining()[0] && final(self).remaining() == old(self).remaining().drop_first()),
    {
        if self.start < self.items.len() && self.items.len() - self.start >= 3 {
            let i = self.start;
            let w = [self.items[i], self.items[i + 1], self.items[i + 2]];
            self.start = i + 1;
            assert(w@ =~= window(self.items@, i as int));
            assert(final(self).remaining() =~= old(self).remaining().drop_first());
            Some(w)
        } else {
            None
        }
    }

    /// All windows still to come, in order.
    pub fn collect(self) -> (r: Vec<[T; 3]>)
        ensures
            r@.len() == self.remaining().len(),
            forall|j: int| 0 <= j < r@.len() ==> (#[trigger] r@[j])@ == self.remaining()[j],
    {
        let mut it = self;
        let mut out: Vec<[T; 3]> = Vec::new();
        let ghost all = self.remaining();
        while it.start < it.items.len() && it.items.len() - it.start >= 3
            invariant
                all.len() == out@.len() + it.remaining().len(),
                forall|j: int| 0 <= j < out@.len() ==> (#[trigger] out@[j])@ == all[j],
                forall|j: int|
                    0 <= j < it.remaining().len() ==> #[trigger] it.remaining()[j] == all[out@.len()
                        + j],
            decreases it.remaining().len(),
        {
            match it.next() {
                Some(w) => out.push(w),
                None => {},
            }
        }
        out
    }
}

} // verus!

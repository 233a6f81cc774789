use std::collections::VecDeque;
use vstd::prelude::*;

verus! {

/// A type with known length and first element (unless it's empty) whose elements can
/// be read again and again by position.
pub trait Sequence {
    type Item;

    fn len(&self) -> usize;

    fn front(&self) -> Option<Self::Item>;

    fn get(&self, index: usize) -> Option<Self::Item>;
}

impl<'a, T> Sequence for &'a VecDeque<T> {
    type Item = &'a T;

    fn len(&self) -> (r: usize)
        ensures
            r == self@.len(),
    {
        VecDeque::len(*self)
    }

    fn front(&self) -> (r: Option<&'a T>)
        ensures
            self@.len() == 0 ==> r is None,
            self@.len() > 0 ==> (r matches Some(x) && *x == self@[0]),
    {
        if VecDeque::len(*self) == 0 {
            None
        } else {
            let v: &'a VecDeque<T> = *self;
            Some(&v[0])
        }
    }

    fn get(&self, index: usize) -> (r: Option<&'a T>)
        ensures
            index >= self@.len() ==> r is None,
            index < self@.len() ==> (r matches Some(x) && *x == self@[index as int]),
    {
        if index < VecDeque::len(*self) {
            let v: &'a VecDeque<T> = *self;
            Some(&v[index])
        } else {
            None
        }
    }
}

} // verus!

//! Traversal of a borrowed slice.

use vstd::prelude::*;
use crate::sequence::{advance, retreat, DoubleEnded, Sequence, SizeEstimate, TrustedIterator};

verus! {

/// References to the elements of a sequence, in order.
pub open spec fn refs<'a, T>(s: Seq<T>) -> Seq<&'a T> {
    Seq::new(s.len(), |at: int| &s[at])
}

/// A traversal of a slice that yields a reference to each element.
#[derive(Clone)]
pub struct SliceIter<'a, T> {
    items: &'a [T],
    front: usize,
    back: usize,
}

impl<'a, T> SliceIter<'a, T> {
    /// Starts a traversal at the slice's first element.
    pub fn new(items: &'a [T]) -> (s: SliceIter<'a, T>)
        ensures
            s.wf(),
            s.remaining() == refs::<T>(items@),
    {
        let s = SliceIter { items: items, front: 0, back: items.len() };
        proof {
            assert(s.remaining() =~= refs::<T>(items@));
        }
        s
    }
}

impl<'a, T> Sequence for SliceIter<'a, T> {
    type Item = &'a T;

    closed spec fn wf(&self) -> bool {
        self.front <= self.back <= self.items@.len()
    }

    closed spec fn remaining(&self) -> Seq<&'a T> {
        refs::<T>(self.items@.subrange(self.front as int, self.back as int))
    }

    closed spec fn size_estimate(&self) -> SizeEstimate {
        let n = (self.back - self.front) as usize;
        (n, Some(n))
    }

    fn next(&mut self) -> (r: Option<&'a T>) {
        if self.front < self.back {
            let elt = &self.items[self.front];
            self.front += 1;
            proof {
                assert(final(self).remaining() =~= advance(old(self).remaining()));
            }
            Some(elt)
        } else {
            None
        }
    }

    fn size_hint(&self) -> (r: SizeEstimate) {
        let n = self.back - self.front;
        (n, Some(n))
    }
}

impl<'a, T> DoubleEnded for SliceIter<'a, T> {
    fn next_back(&mut self) -> (r: Option<&'a T>) {
        if self.front < self.back {
            self.back -= 1;
            let elt = &self.items[self.back];
            proof {
                assert(final(self).remaining() =~= retreat(old(self).remaining()));
            }
            Some(elt)
        } else {
            None
        }
    }
}

impl<'a, T> TrustedIterator for SliceIter<'a, T> {
    proof fn lemma_exact_size(&self) {
    }
}

} // verus!

//! Reversal, which keeps the exact-size capability.

use vstd::prelude::*;
use crate::sequence::{advance, retreat, DoubleEnded, Sequence, SizeEstimate, TrustedIterator};

verus! {

/// A double-ended sequence traversed from its far end.
#[derive(Clone)]
pub struct Rev<I> {
    inner: I,
}

impl<I> Rev<I> {
    /// The sequence being reversed.
    pub closed spec fn inner(&self) -> I {
        self.inner
    }

    /// Reverses a sequence.
    pub fn new(inner: I) -> (r: Rev<I>)
        ensures
            r.inner() == inner,
    {
        Rev { inner: inner }
    }
}

impl<I: DoubleEnded> Sequence for Rev<I> {
    type Item = I::Item;

    open spec fn wf(&self) -> bool {
        self.inner().wf()
    }

    open spec fn remaining(&self) -> Seq<I::Item> {
        self.inner().remaining().reverse()
    }

    open spec fn size_estimate(&self) -> SizeEstimate {
        self.inner().size_estimate()
    }

    fn next(&mut self) -> (r: Option<I::Item>) {
        let r = self.inner.next_back();
        proof {
            assert(final(self).remaining() =~= advance(old(self).remaining()));
        }
        r
    }

    fn size_hint(&self) -> (r: SizeEstimate) {
        self.inner.size_hint()
    }
}

impl<I: DoubleEnded> DoubleEnded for Rev<I> {
    fn next_back(&mut self) -> (r: Option<I::Item>) {
        let r = self.inner.next();
        proof {
            assert(final(self).remaining() =~= retreat(old(self).remaining()));
        }
        r
    }
}

impl<I: DoubleEnded + TrustedIterator> TrustedIterator for Rev<I> {
    proof fn lemma_exact_size(&self) {
        self.inner().lemma_exact_size();
    }
}

} // verus!

//! Prefix limiting, which keeps the exact-size capability.

use vstd::prelude::*;
use crate::sequence::{advance, least, lesser, Sequence, SizeEstimate, TrustedIterator};

verus! {

/// A sequence cut off after a given number of elements.
#[derive(Clone)]
pub struct Take<I> {
    inner: I,
    left: usize,
}

impl<I> Take<I> {
    /// The sequence being limited.
    pub closed spec fn inner(&self) -> I {
        self.inner
    }

    /// How many more elements may be handed out.
    pub closed spec fn left(&self) -> usize {
        self.left
    }

    /// Limits a sequence to its first `n` elements.
    pub fn new(inner: I, n: usize) -> (t: Take<I>)
        ensures
            t.inner() == inner,
            t.left() == n,
    {
        Take { inner: inner, left: n }
    }
}

impl<I: Sequence> Sequence for Take<I> {
    type Item = I::Item;

    open spec fn wf(&self) -> bool {
        self.inner().wf()
    }

    open spec fn remaining(&self) -> Seq<I::Item> {
        let all = self.inner().remaining();
        all.take(least(self.left() as nat, all.len()) as int)
    }

    open spec fn size_estimate(&self) -> SizeEstimate {
        let e = self.inner().size_estimate();
        if self.left() == 0 {
            (0usize, Some(0usize))
        } else {
            (
                least(e.0 as nat, self.left() as nat) as usize,
                match e.1 {
                    Some(u) => Some(least(u as nat, self.left() as nat) as usize),
                    None => Some(self.left()),
                },
            )
        }
    }

    fn next(&mut self) -> (r: Option<I::Item>)
        ensures
            old(self).left() == 0 ==> *final(self) == *old(self),
            old(self).left() > 0 ==> final(self).left() == old(self).left() - 1,
    {
        if self.left != 0 {
            self.left -= 1;
            let r = self.inner.next();
            proof {
                assert(final(self).remaining() =~= advance(old(self).remaining()));
            }
            r
        } else {
            None
        }
    }

    fn size_hint(&self) -> (r: SizeEstimate) {
        if self.left == 0 {
            return (0, Some(0));
        }
        let (lower, upper) = self.inner.size_hint();
        let lower = lesser(lower, self.left);
        let upper = match upper {
            Some(u) => Some(lesser(u, self.left)),
            None => Some(self.left),
        };
        (lower, upper)
    }
}

impl<I: TrustedIterator> TrustedIterator for Take<I> {
    proof fn lemma_exact_size(&self) {
        self.inner().lemma_exact_size();
    }
}

} // verus!

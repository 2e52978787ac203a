//! Traversal of an owned collection.

use vstd::prelude::*;
use std::collections::VecDeque;
use crate::sequence::{advance, retreat, DoubleEnded, Sequence, SizeEstimate, TrustedIterator};

verus! {

/// A traversal that owns its elements and gives each away in turn.
#[derive(Clone)]
pub struct VecIter<T> {
    items: VecDeque<T>,
}

impl<T> VecIter<T> {
    /// Takes a vector over and starts a traversal at its first element.
    pub fn new(v: Vec<T>) -> (s: VecIter<T>)
        ensures
            s.wf(),
            s.remaining() == v@,
    {
        let mut v = v;
        let ghost all = v@;
        let mut items: VecDeque<T> = VecDeque::new();
        while v.len() > 0
            invariant
                v@ + items@ == all,
            decreases v.len(),
        {
            let ghost before = v@;
            let ghost held = items@;
            match v.pop() {
                Some(elt) => {
                    items.push_front(elt);
                    proof {
                        assert(v@ + items@ =~= before + held);
                    }
                },
                None => {},
            }
        }
        proof {
            assert(items@ =~= v@ + items@);
        }
        VecIter { items: items }
    }
}

impl<T> Sequence for VecIter<T> {
    type Item = T;

    closed spec fn wf(&self) -> bool {
        true
    }

    closed spec fn remaining(&self) -> Seq<T> {
        self.items@
    }

    closed spec fn size_estimate(&self) -> SizeEstimate {
        let n = self.items.len();
        (n, Some(n))
    }

    fn next(&mut self) -> (r: Option<T>) {
        let r = self.items.pop_front();
        proof {
            assert(final(self).remaining() =~= advance(old(self).remaining()));
        }
        r
    }

    fn size_hint(&self) -> (r: SizeEstimate) {
        let n = self.items.len();
        (n, Some(n))
    }
}

impl<T> DoubleEnded for VecIter<T> {
    fn next_back(&mut self) -> (r: Option<T>) {
        let r = self.items.pop_back();
        proof {
            assert(final(self).remaining() =~= retreat(old(self).remaining()));
        }
        r
    }
}

impl<T> TrustedIterator for VecIter<T> {
    proof fn lemma_exact_size(&self) {
    }
}

} // verus!

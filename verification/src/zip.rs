//! The general lockstep combinator.

use vstd::prelude::*;
use crate::sequence::{advance, combine, least, lemma_meet_bounds, meet, Sequence, SizeEstimate};

verus! {

/// Runs several sequences in lockstep.
///
/// `Zip<(A, B, ..)>` is formed from a tuple of one to nine sequences and yields
/// tuples of their elements until any component yields `None`. It is itself a
/// sequence, so a `Zip` of `Zip`s is one too.
#[derive(Clone)]
pub struct Zip<T> {
    t: T,
}

impl<T> Zip<T> {
    /// The wrapped tuple of component sequences.
    pub closed spec fn components(&self) -> T {
        self.t
    }

    /// Wraps a tuple of sequences as it is.
    pub fn new(t: T) -> (z: Zip<T>)
        ensures
            z.components() == t,
    {
        Zip { t: t }
    }

    /// Gives the component sequences back, each as far along as the stepping
    /// has left it.
    pub fn into_inner(self) -> (t: T)
        ensures
            t == self.components(),
    {
        self.t
    }
}

impl<A: Sequence> Sequence for Zip<(A,)> {
    type Item = (A::Item,);

    open spec fn wf(&self) -> bool {
        &&& self.components().0.wf()
    }

    open spec fn remaining(&self) -> Seq<Self::Item> {
        let a = self.components().0.remaining();
        Seq::new(a.len(), |at: int| (a[at],))
    }

    open spec fn size_estimate(&self) -> SizeEstimate {
        self.components().0.size_estimate()
    }

    /// Pulls from the one component and wraps what it yields.
    fn next(&mut self) -> (r: Option<Self::Item>)
        ensures
            final(self).components().0.remaining() == advance(
                old(self).components().0.remaining(),
            ),
    {
        let a = match self.t.0.next() {
            None => return None,
            Some(elt) => elt,
        };
        proof {
            assert(final(self).remaining() =~= advance(old(self).remaining()));
        }
        Some((a,))
    }

    fn size_hint(&self) -> (r: SizeEstimate) {
        self.t.0.size_hint()
    }
}

impl<A: Sequence> Zip<(A,)> {
    /// A lockstep of one sequence yields as many tuples as that sequence has
    /// elements, and the tuple at each position holds the component's element
    /// at that position.
    pub proof fn lemma_tuples(&self)
        ensures
            ({
                let a = self.components().0.remaining();
                let n = self.remaining().len();
                &&& n == a.len()
                &&& forall|at: int|
                    0 <= at < n ==> #[trigger] self.remaining()[at]
                        == (a[at],)
            }),
    {
    }

    /// The estimate of a lockstep of one sequence is that sequence's estimate.
    pub proof fn lemma_estimate(&self)
        ensures
            self.size_estimate() == self.components().0.size_estimate(),
    {
    }
}

impl<A: Sequence, B: Sequence> Sequence for Zip<(A, B)> {
    type Item = (A::Item, B::Item);

    open spec fn wf(&self) -> bool {
        &&& self.components().0.wf()
        &&& self.components().1.wf()
    }

    open spec fn remaining(&self) -> Seq<Self::Item> {
        let a = self.components().0.remaining();
        let b = self.components().1.remaining();
        let n = a.len();
        let n = least(n, b.len());
        Seq::new(n, |at: int| (a[at], b[at]))
    }

    open spec fn size_estimate(&self) -> SizeEstimate {
        let a = self.components().0.size_estimate();
        let b = self.components().1.size_estimate();
        let est = meet(a, b);
        est
    }

    /// Pulls from the components from left to right and stops at the first
    /// that has run dry: the components before it have then given up one
    /// element each, which is dropped, and those after it are untouched.
    fn next(&mut self) -> (r: Option<Self::Item>)
        ensures
            ({
                let a = old(self).components().0.remaining();
                let b = old(self).components().1.remaining();
                let n1 = a.len();
                &&& final(self).components().0.remaining() == advance(a)
                &&& n1 > 0 ==> final(self).components().1.remaining() == advance(b)
                &&& n1 == 0 ==> final(self).components().1 == old(self).components().1
            }),
    {
        let a = match self.t.0.next() {
            None => return None,
            Some(elt) => elt,
        };
        let b = match self.t.1.next() {
            None => return None,
            Some(elt) => elt,
        };
        proof {
            assert(final(self).remaining() =~= advance(old(self).remaining()));
        }
        Some((a, b))
    }

    fn size_hint(&self) -> (r: SizeEstimate) {
        let est = self.t.0.size_hint();
        let ghost mut n = self.t.0.remaining().len();
        let b = self.t.1.size_hint();
        proof {
            lemma_meet_bounds(est, n, b, self.t.1.remaining().len());
            n = least(n, self.t.1.remaining().len());
        }
        combine(est, b)
    }
}

impl<A: Sequence, B: Sequence> Zip<(A, B)> {
    /// A lockstep of two sequences yields as many tuples as the shortest of
    /// them has elements, and the tuple at each position holds the components'
    /// elements at that position, in component order.
    pub proof fn lemma_tuples(&self)
        ensures
            ({
                let a = self.components().0.remaining();
                let b = self.components().1.remaining();
                let n = self.remaining().len();
                &&& n <= a.len()
                &&& n <= b.len()
                &&& {
                    ||| n == a.len()
                    ||| n == b.len()
                }
                &&& forall|at: int|
                    0 <= at < n ==> #[trigger] self.remaining()[at]
                        == (a[at], b[at])
            }),
    {
    }

    /// The estimate's lower bound is the least of the components' lower
    /// bounds. Its upper bound is the least of the components' upper bounds
    /// where every component reports one, and absent as soon as one is absent.
    pub proof fn lemma_estimate(&self)
        ensures
            ({
                let a = self.components().0.size_estimate();
                let b = self.components().1.size_estimate();
                let est = self.size_estimate();
                &&& est.0 <= a.0
                &&& est.0 <= b.0
                &&& {
                    ||| est.0 == a.0
                    ||| est.0 == b.0
                }
                &&& est.1 is None <==> {
                    ||| a.1 is None
                    ||| b.1 is None
                }
                &&& est.1 matches Some(u) ==> {
                    &&& u <= a.1.unwrap()
                    &&& u <= b.1.unwrap()
                    &&& {
                        ||| a.1 == Some(u)
                        ||| b.1 == Some(u)
                    }
                }
            }),
    {
    }
}

impl<
    A: Sequence,
    B: Sequence,
    C: Sequence,
> Sequence for Zip<(A, B, C)> {
    type Item = (A::Item, B::Item, C::Item);

    open spec fn wf(&self) -> bool {
        &&& self.components().0.wf()
        &&& self.components().1.wf()
        &&& self.components().2.wf()
    }

    open spec fn remaining(&self) -> Seq<Self::Item> {
        let a = self.components().0.remaining();
        let b = self.components().1.remaining();
        let c = self.components().2.remaining();
        let n = a.len();
        let n = least(n, b.len());
        let n = least(n, c.len());
        Seq::new(n, |at: int| (a[at], b[at], c[at]))
    }

    open spec fn size_estimate(&self) -> SizeEstimate {
        let a = self.components().0.size_estimate();
        let b = self.components().1.size_estimate();
        let c = self.components().2.size_estimate();
        let est = meet(a, b);
        let est = meet(est, c);
        est
    }

    /// Pulls from the components from left to right and stops at the first
    /// that has run dry: the components before it have then given up one
    /// element each, which is dropped, and those after it are untouched.
    fn next(&mut self) -> (r: Option<Self::Item>)
        ensures
            ({
                let a = old(self).components().0.remaining();
                let b = old(self).components().1.remaining();
                let c = old(self).components().2.remaining();
                let n1 = a.len();
                let n2 = least(n1, b.len());
                &&& final(self).components().0.remaining() == advance(a)
                &&& n1 > 0 ==> final(self).components().1.remaining() == advance(b)
                &&& n1 == 0 ==> final(self).components().1 == old(self).components().1
                &&& n2 > 0 ==> final(self).components().2.remaining() == advance(c)
                &&& n2 == 0 ==> final(self).components().2 == old(self).components().2
            }),
    {
        let a = match self.t.0.next() {
            None => return None,
            Some(elt) => elt,
        };
        let b = match self.t.1.next() {
            None => return None,
            Some(elt) => elt,
        };
        let c = match self.t.2.next() {
            None => return None,
            Some(elt) => elt,
        };
        proof {
            assert(final(self).remaining() =~= advance(old(self).remaining()));
        }
        Some((a, b, c))
    }

    fn size_hint(&self) -> (r: SizeEstimate) {
        let est = self.t.0.size_hint();
        let ghost mut n = self.t.0.remaining().len();
        let b = self.t.1.size_hint();
        proof {
            lemma_meet_bounds(est, n, b, self.t.1.remaining().len());
            n = least(n, self.t.1.remaining().len());
        }
        let est = combine(est, b);
        let c = self.t.2.size_hint();
        proof {
            lemma_meet_bounds(est, n, c, self.t.2.remaining().len());
            n = least(n, self.t.2.remaining().len());
        }
        combine(est, c)
    }
}

impl<
    A: Sequence,
    B: Sequence,
    C: Sequence,
> Zip<(A, B, C)> {
    /// A lockstep of three sequences yields as many tuples as the shortest of
    /// them has elements, and the tuple at each position holds the components'
    /// elements at that position, in component order.
    pub proof fn lemma_tuples(&self)
        ensures
            ({
                let a = self.components().0.remaining();
                let b = self.components().1.remaining();
                let c = self.components().2.remaining();
                let n = self.remaining().len();
                &&& n <= a.len()
                &&& n <= b.len()
                &&& n <= c.len()
                &&& {
                    ||| n == a.len()
                    ||| n == b.len()
                    ||| n == c.len()
                }
                &&& forall|at: int|
                    0 <= at < n ==> #[trigger] self.remaining()[at]
                        == (a[at], b[at], c[at])
            }),
    {
    }

    /// The estimate's lower bound is the least of the components' lower
    /// bounds. Its upper bound is the least of the components' upper bounds
    /// where every component reports one, and absent as soon as one is absent.
    pub proof fn lemma_estimate(&self)
        ensures
            ({
                let a = self.components().0.size_estimate();
                let b = self.components().1.size_estimate();
                let c = self.components().2.size_estimate();
                let est = self.size_estimate();
                &&& est.0 <= a.0
                &&& est.0 <= b.0
                &&& est.0 <= c.0
                &&& {
                    ||| est.0 == a.0
                    ||| est.0 == b.0
                    ||| est.0 == c.0
                }
                &&& est.1 is None <==> {
                    ||| a.1 is None
                    ||| b.1 is None
                    ||| c.1 is None
                }
                &&& est.1 matches Some(u) ==> {
                    &&& u <= a.1.unwrap()
                    &&& u <= b.1.unwrap()
                    &&& u <= c.1.unwrap()
                    &&& {
                        ||| a.1 == Some(u)
                        ||| b.1 == Some(u)
                        ||| c.1 == Some(u)
                    }
                }
            }),
    {
    }
}

impl<
    A: Sequence,
    B: Sequence,
    C: Sequence,
    D: Sequence,
> Sequence for Zip<(A, B, C, D)> {
    type Item = (A::Item, B::Item, C::Item, D::Item);

    open spec fn wf(&self) -> bool {
        &&& self.components().0.wf()
        &&& self.components().1.wf()
        &&& self.components().2.wf()
        &&& self.components().3.wf()
    }

    open spec fn remaining(&self) -> Seq<Self::Item> {
        let a = self.components().0.remaining();
        let b = self.components().1.remaining();
        let c = self.components().2.remaining();
        let d = self.components().3.remaining();
        let n = a.len();
        let n = least(n, b.len());
        let n = least(n, c.len());
        let n = least(n, d.len());
        Seq::new(n, |at: int| (a[at], b[at], c[at], d[at]))
    }

    open spec fn size_estimate(&self) -> SizeEstimate {
        let a = self.components().0.size_estimate();
        let b = self.components().1.size_estimate();
        let c = self.components().2.size_estimate();
        let d = self.components().3.size_estimate();
        let est = meet(a, b);
        let est = meet(est, c);
        let est = meet(est, d);
        est
    }

    /// Pulls from the components from left to right and stops at the first
    /// that has run dry: the components before it have then given up one
    /// element each, which is dropped, and those after it are untouched.
    fn next(&mut self) -> (r: Option<Self::Item>)
        ensures
            ({
                let a = old(self).components().0.remaining();
                let b = old(self).components().1.remaining();
                let c = old(self).components().2.remaining();
                let d = old(self).components().3.remaining();
                let n1 = a.len();
                let n2 = least(n1, b.len());
                let n3 = least(n2, c.len());
                &&& final(self).components().0.remaining() == advance(a)
                &&& n1 > 0 ==> final(self).components().1.remaining() == advance(b)
                &&& n1 == 0 ==> final(self).components().1 == old(self).components().1
                &&& n2 > 0 ==> final(self).components().2.remaining() == advance(c)
                &&& n2 == 0 ==> final(self).components().2 == old(self).components().2
                &&& n3 > 0 ==> final(self).components().3.remaining() == advance(d)
                &&& n3 == 0 ==> final(self).components().3 == old(self).components().3
            }),
    {
        let a = match self.t.0.next() {
            None => return None,
            Some(elt) => elt,
        };
        let b = match self.t.1.next() {
            None => return None,
            Some(elt) => elt,
        };
        let c = match self.t.2.next() {
            None => return None,
            Some(elt) => elt,
        };
        let d = match self.t.3.next() {
            None => return None,
            Some(elt) => elt,
        };
        proof {
            assert(final(self).remaining() =~= advance(old(self).remaining()));
        }
        Some((a, b, c, d))
    }

    fn size_hint(&self) -> (r: SizeEstimate) {
        let est = self.t.0.size_hint();
        let ghost mut n = self.t.0.remaining().len();
        let b = self.t.1.size_hint();
        proof {
            lemma_meet_bounds(est, n, b, self.t.1.remaining().len());
            n = least(n, self.t.1.remaining().len());
        }
        let est = combine(est, b);
        let c = self.t.2.size_hint();
        proof {
            lemma_meet_bounds(est, n, c, self.t.2.remaining().len());
            n = least(n, self.t.2.remaining().len());
        }
        let est = combine(est, c);
        let d = self.t.3.size_hint();
        proof {
            lemma_meet_bounds(est, n, d, self.t.3.remaining().len());
            n = least(n, self.t.3.remaining().len());
        }
        combine(est, d)
    }
}

impl<
    A: Sequence,
    B: Sequence,
    C: Sequence,
    D: Sequence,
> Zip<(A, B, C, D)> {
    /// A lockstep of four sequences yields as many tuples as the shortest of
    /// them has elements, and the tuple at each position holds the components'
    /// elements at that position, in component order.
    pub proof fn lemma_tuples(&self)
        ensures
            ({
                let a = self.components().0.remaining();
                let b = self.components().1.remaining();
                let c = self.components().2.remaining();
                let d = self.components().3.remaining();
                let n = self.remaining().len();
                &&& n <= a.len()
                &&& n <= b.len()
                &&& n <= c.len()
                &&& n <= d.len()
                &&& {
                    ||| n == a.len()
                    ||| n == b.len()
                    ||| n == c.len()
                    ||| n == d.len()
                }
                &&& forall|at: int|
                    0 <= at < n ==> #[trigger] self.remaining()[at]
                        == (a[at], b[at], c[at], d[at])
            }),
    {
    }

    /// The estimate's lower bound is the least of the components' lower
    /// bounds. Its upper bound is the least of the components' upper bounds
    /// where every component reports one, and absent as soon as one is absent.
    pub proof fn lemma_estimate(&self)
        ensures
            ({
                let a = self.components().0.size_estimate();
                let b = self.components().1.size_estimate();
                let c = self.components().2.size_estimate();
                let d = self.components().3.size_estimate();
                let est = self.size_estimate();
                &&& est.0 <= a.0
                &&& est.0 <= b.0
                &&& est.0 <= c.0
                &&& est.0 <= d.0
                &&& {
                    ||| est.0 == a.0
                    ||| est.0 == b.0
                    ||| est.0 == c.0
                    ||| est.0 == d.0
                }
                &&& est.1 is None <==> {
                    ||| a.1 is None
                    ||| b.1 is None
                    ||| c.1 is None
                    ||| d.1 is None
                }
                &&& est.1 matches Some(u) ==> {
                    &&& u <= a.1.unwrap()
                    &&& u <= b.1.unwrap()
                    &&& u <= c.1.unwrap()
                    &&& u <= d.1.unwrap()
                    &&& {
                        ||| a.1 == Some(u)
                        ||| b.1 == Some(u)
                        ||| c.1 == Some(u)
                        ||| d.1 == Some(u)
                    }
                }
            }),
    {
    }
}

impl<
    A: Sequence,
    B: Sequence,
    C: Sequence,
    D: Sequence,
    E: Sequence,
> Sequence for Zip<(A, B, C, D, E)> {
    type Item = (A::Item, B::Item, C::Item, D::Item, E::Item);

    open spec fn wf(&self) -> bool {
        &&& self.components().0.wf()
        &&& self.components().1.wf()
        &&& self.components().2.wf()
        &&& self.components().3.wf()
        &&& self.components().4.wf()
    }

    open spec fn remaining(&self) -> Seq<Self::Item> {
        let a = self.components().0.remaining();
        let b = self.components().1.remaining();
        let c = self.components().2.remaining();
        let d = self.components().3.remaining();
        let e = self.components().4.remaining();
        let n = a.len();
        let n = least(n, b.len());
        let n = least(n, c.len());
        let n = least(n, d.len());
        let n = least(n, e.len());
        Seq::new(n, |at: int| (a[at], b[at], c[at], d[at], e[at]))
    }

    open spec fn size_estimate(&self) -> SizeEstimate {
        let a = self.components().0.size_estimate();
        let b = self.components().1.size_estimate();
        let c = self.components().2.size_estimate();
        let d = self.components().3.size_estimate();
        let e = self.components().4.size_estimate();
        let est = meet(a, b);
        let est = meet(est, c);
        let est = meet(est, d);
        let est = meet(est, e);
        est
    }

    /// Pulls from the components from left to right and stops at the first
    /// that has run dry: the components before it have then given up one
    /// element each, which is dropped, and those after it are untouched.
    fn next(&mut self) -> (r: Option<Self::Item>)
        ensures
            ({
                let a = old(self).components().0.remaining();
                let b = old(self).components().1.remaining();
                let c = old(self).components().2.remaining();
                let d = old(self).components().3.remaining();
                let e = old(self).components().4.remaining();
                let n1 = a.len();
                let n2 = least(n1, b.len());
                let n3 = least(n2, c.len());
                let n4 = least(n3, d.len());
                &&& final(self).components().0.remaining() == advance(a)
                &&& n1 > 0 ==> final(self).components().1.remaining() == advance(b)
                &&& n1 == 0 ==> final(self).components().1 == old(self).components().1
                &&& n2 > 0 ==> final(self).components().2.remaining() == advance(c)
                &&& n2 == 0 ==> final(self).components().2 == old(self).components().2
                &&& n3 > 0 ==> final(self).components().3.remaining() == advance(d)
                &&& n3 == 0 ==> final(self).components().3 == old(self).components().3
                &&& n4 > 0 ==> final(self).components().4.remaining() == advance(e)
                &&& n4 == 0 ==> final(self).components().4 == old(self).components().4
            }),
    {
        let a = match self.t.0.next() {
            None => return None,
            Some(elt) => elt,
        };
        let b = match self.t.1.next() {
            None => return None,
            Some(elt) => elt,
        };
        let c = match self.t.2.next() {
            None => return None,
            Some(elt) => elt,
        };
        let d = match self.t.3.next() {
            None => return None,
            Some(elt) => elt,
        };
        let e = match self.t.4.next() {
            None => return None,
            Some(elt) => elt,
        };
        proof {
            assert(final(self).remaining() =~= advance(old(self).remaining()));
        }
        Some((a, b, c, d, e))
    }

    fn size_hint(&self) -> (r: SizeEstimate) {
        let est = self.t.0.size_hint();
        let ghost mut n = self.t.0.remaining().len();
        let b = self.t.1.size_hint();
        proof {
            lemma_meet_bounds(est, n, b, self.t.1.remaining().len());
            n = least(n, self.t.1.remaining().len());
        }
        let est = combine(est, b);
        let c = self.t.2.size_hint();
        proof {
            lemma_meet_bounds(est, n, c, self.t.2.remaining().len());
            n = least(n, self.t.2.remaining().len());
        }
        let est = combine(est, c);
        let d = self.t.3.size_hint();
        proof {
            lemma_meet_bounds(est, n, d, self.t.3.remaining().len());
            n = least(n, self.t.3.remaining().len());
        }
        let est = combine(est, d);
        let e = self.t.4.size_hint();
        proof {
            lemma_meet_bounds(est, n, e, self.t.4.remaining().len());
            n = least(n, self.t.4.remaining().len());
        }
        combine(est, e)
    }
}

impl<
    A: Sequence,
    B: Sequence,
    C: Sequence,
    D: Sequence,
    E: Sequence,
> Zip<(A, B, C, D, E)> {
    /// A lockstep of five sequences yields as many tuples as the shortest of
    /// them has elements, and the tuple at each position holds the components'
    /// elements at that position, in component order.
    pub proof fn lemma_tuples(&self)
        ensures
            ({
                let a = self.components().0.remaining();
                let b = self.components().1.remaining();
                let c = self.components().2.remaining();
                let d = self.components().3.remaining();
                let e = self.components().4.remaining();
                let n = self.remaining().len();
                &&& n <= a.len()
                &&& n <= b.len()
                &&& n <= c.len()
                &&& n <= d.len()
                &&& n <= e.len()
                &&& {
                    ||| n == a.len()
                    ||| n == b.len()
                    ||| n == c.len()
                    ||| n == d.len()
                    ||| n == e.len()
                }
                &&& forall|at: int|
                    0 <= at < n ==> #[trigger] self.remaining()[at]
                        == (a[at], b[at], c[at], d[at], e[at])
            }),
    {
    }

    /// The estimate's lower bound is the least of the components' lower
    /// bounds. Its upper bound is the least of the components' upper bounds
    /// where every component reports one, and absent as soon as one is absent.
    pub proof fn lemma_estimate(&self)
        ensures
            ({
                let a = self.components().0.size_estimate();
                let b = self.components().1.size_estimate();
                let c = self.components().2.size_estimate();
                let d = self.components().3.size_estimate();
                let e = self.components().4.size_estimate();
                let est = self.size_estimate();
                &&& est.0 <= a.0
                &&& est.0 <= b.0
                &&& est.0 <= c.0
                &&& est.0 <= d.0
                &&& est.0 <= e.0
                &&& {
                    ||| est.0 == a.0
                    ||| est.0 == b.0
                    ||| est.0 == c.0
                    ||| est.0 == d.0
                    ||| est.0 == e.0
                }
                &&& est.1 is None <==> {
                    ||| a.1 is None
                    ||| b.1 is None
                    ||| c.1 is None
                    ||| d.1 is None
                    ||| e.1 is None
                }
                &&& est.1 matches Some(u) ==> {
                    &&& u <= a.1.unwrap()
                    &&& u <= b.1.unwrap()
                    &&& u <= c.1.unwrap()
                    &&& u <= d.1.unwrap()
                    &&& u <= e.1.unwrap()
                    &&& {
                        ||| a.1 == Some(u)
                        ||| b.1 == Some(u)
                        ||| c.1 == Some(u)
                        ||| d.1 == Some(u)
                        ||| e.1 == Some(u)
                    }
                }
            }),
    {
    }
}

impl<
    A: Sequence,
    B: Sequence,
    C: Sequence,
    D: Sequence,
    E: Sequence,
    F: Sequence,
> Sequence for Zip<(A, B, C, D, E, F)> {
    type Item = (A::Item, B::Item, C::Item, D::Item, E::Item, F::Item);

    open spec fn wf(&self) -> bool {
        &&& self.components().0.wf()
        &&& self.components().1.wf()
        &&& self.components().2.wf()
        &&& self.components().3.wf()
        &&& self.components().4.wf()
        &&& self.components().5.wf()
    }

    open spec fn remaining(&self) -> Seq<Self::Item> {
        let a = self.components().0.remaining();
        let b = self.components().1.remaining();
        let c = self.components().2.remaining();
        let d = self.components().3.remaining();
        let e = self.components().4.remaining();
        let f = self.components().5.remaining();
        let n = a.len();
        let n = least(n, b.len());
        let n = least(n, c.len());
        let n = least(n, d.len());
        let n = least(n, e.len());
        let n = least(n, f.len());
        Seq::new(n, |at: int| (a[at], b[at], c[at], d[at], e[at], f[at]))
    }

    open spec fn size_estimate(&self) -> SizeEstimate {
        let a = self.components().0.size_estimate();
        let b = self.components().1.size_estimate();
        let c = self.components().2.size_estimate();
        let d = self.components().3.size_estimate();
        let e = self.components().4.size_estimate();
        let f = self.components().5.size_estimate();
        let est = meet(a, b);
        let est = meet(est, c);
        let est = meet(est, d);
        let est = meet(est, e);
        let est = meet(est, f);
        est
    }

    /// Pulls from the components from left to right and stops at the first
    /// that has run dry: the components before it have then given up one
    /// element each, which is dropped, and those after it are untouched.
    fn next(&mut self) -> (r: Option<Self::Item>)
        ensures
            ({
                let a = old(self).components().0.remaining();
                let b = old(self).components().1.remaining();
                let c = old(self).components().2.remaining();
                let d = old(self).components().3.remaining();
                let e = old(self).components().4.remaining();
                let f = old(self).components().5.remaining();
                let n1 = a.len();
                let n2 = least(n1, b.len());
                let n3 = least(n2, c.len());
                let n4 = least(n3, d.len());
                let n5 = least(n4, e.len());
                &&& final(self).components().0.remaining() == advance(a)
                &&& n1 > 0 ==> final(self).components().1.remaining() == advance(b)
                &&& n1 == 0 ==> final(self).components().1 == old(self).components().1
                &&& n2 > 0 ==> final(self).components().2.remaining() == advance(c)
                &&& n2 == 0 ==> final(self).components().2 == old(self).components().2
                &&& n3 > 0 ==> final(self).components().3.remaining() == advance(d)
                &&& n3 == 0 ==> final(self).components().3 == old(self).components().3
                &&& n4 > 0 ==> final(self).components().4.remaining() == advance(e)
                &&& n4 == 0 ==> final(self).components().4 == old(self).components().4
                &&& n5 > 0 ==> final(self).components().5.remaining() == advance(f)
                &&& n5 == 0 ==> final(self).components().5 == old(self).components().5
            }),
    {
        let a = match self.t.0.next() {
            None => return None,
            Some(elt) => elt,
        };
        let b = match self.t.1.next() {
            None => return None,
            Some(elt) => elt,
        };
        let c = match self.t.2.next() {
            None => return None,
            Some(elt) => elt,
        };
        let d = match self.t.3.next() {
            None => return None,
            Some(elt) => elt,
        };
        let e = match self.t.4.next() {
            None => return None,
            Some(elt) => elt,
        };
        let f = match self.t.5.next() {
            None => return None,
            Some(elt) => elt,
        };
        proof {
            assert(final(self).remaining() =~= advance(old(self).remaining()));
        }
        Some((a, b, c, d, e, f))
    }

    fn size_hint(&self) -> (r: SizeEstimate) {
        let est = self.t.0.size_hint();
        let ghost mut n = self.t.0.remaining().len();
        let b = self.t.1.size_hint();
        proof {
            lemma_meet_bounds(est, n, b, self.t.1.remaining().len());
            n = least(n, self.t.1.remaining().len());
        }
        let est = combine(est, b);
        let c = self.t.2.size_hint();
        proof {
            lemma_meet_bounds(est, n, c, self.t.2.remaining().len());
            n = least(n, self.t.2.remaining().len());
        }
        let est = combine(est, c);
        let d = self.t.3.size_hint();
        proof {
            lemma_meet_bounds(est, n, d, self.t.3.remaining().len());
            n = least(n, self.t.3.remaining().len());
        }
        let est = combine(est, d);
        let e = self.t.4.size_hint();
        proof {
            lemma_meet_bounds(est, n, e, self.t.4.remaining().len());
            n = least(n, self.t.4.remaining().len());
        }
        let est = combine(est, e);
        let f = self.t.5.size_hint();
        proof {
            lemma_meet_bounds(est, n, f, self.t.5.remaining().len());
            n = least(n, self.t.5.remaining().len());
        }
        combine(est, f)
    }
}

impl<
    A: Sequence,
    B: Sequence,
    C: Sequence,
    D: Sequence,
    E: Sequence,
    F: Sequence,
> Zip<(A, B, C, D, E, F)> {
    /// A lockstep of six sequences yields as many tuples as the shortest of
    /// them has elements, and the tuple at each position holds the components'
    /// elements at that position, in component order.
    pub proof fn lemma_tuples(&self)
        ensures
            ({
                let a = self.components().0.remaining();
                let b = self.components().1.remaining();
                let c = self.components().2.remaining();
                let d = self.components().3.remaining();
                let e = self.components().4.remaining();
                let f = self.components().5.remaining();
                let n = self.remaining().len();
                &&& n <= a.len()
                &&& n <= b.len()
                &&& n <= c.len()
                &&& n <= d.len()
                &&& n <= e.len()
                &&& n <= f.len()
                &&& {
                    ||| n == a.len()
                    ||| n == b.len()
                    ||| n == c.len()
                    ||| n == d.len()
                    ||| n == e.len()
                    ||| n == f.len()
                }
                &&& forall|at: int|
                    0 <= at < n ==> #[trigger] self.remaining()[at]
                        == (a[at], b[at], c[at], d[at], e[at], f[at])
            }),
    {
    }

    /// The estimate's lower bound is the least of the components' lower
    /// bounds. Its upper bound is the least of the components' upper bounds
    /// where every component reports one, and absent as soon as one is absent.
    pub proof fn lemma_estimate(&self)
        ensures
            ({
                let a = self.components().0.size_estimate();
                let b = self.components().1.size_estimate();
                let c = self.components().2.size_estimate();
                let d = self.components().3.size_estimate();
                let e = self.components().4.size_estimate();
                let f = self.components().5.size_estimate();
                let est = self.size_estimate();
                &&& est.0 <= a.0
                &&& est.0 <= b.0
                &&& est.0 <= c.0
                &&& est.0 <= d.0
                &&& est.0 <= e.0
                &&& est.0 <= f.0
                &&& {
                    ||| est.0 == a.0
                    ||| est.0 == b.0
                    ||| est.0 == c.0
                    ||| est.0 == d.0
                    ||| est.0 == e.0
                    ||| est.0 == f.0
                }
                &&& est.1 is None <==> {
                    ||| a.1 is None
                    ||| b.1 is None
                    ||| c.1 is None
                    ||| d.1 is None
                    ||| e.1 is None
                    ||| f.1 is None
                }
                &&& est.1 matches Some(u) ==> {
                    &&& u <= a.1.unwrap()
                    &&& u <= b.1.unwrap()
                    &&& u <= c.1.unwrap()
                    &&& u <= d.1.unwrap()
                    &&& u <= e.1.unwrap()
                    &&& u <= f.1.unwrap()
                    &&& {
                        ||| a.1 == Some(u)
                        ||| b.1 == Some(u)
                        ||| c.1 == Some(u)
                        ||| d.1 == Some(u)
                        ||| e.1 == Some(u)
                        ||| f.1 == Some(u)
                    }
                }
            }),
    {
    }
}

impl<
    A: Sequence,
    B: Sequence,
    C: Sequence,
    D: Sequence,
    E: Sequence,
    F: Sequence,
    G: Sequence,
> Sequence for Zip<(A, B, C, D, E, F, G)> {
    type Item = (A::Item, B::Item, C::Item, D::Item, E::Item, F::Item, G::Item);

    open spec fn wf(&self) -> bool {
        &&& self.components().0.wf()
        &&& self.components().1.wf()
        &&& self.components().2.wf()
        &&& self.components().3.wf()
        &&& self.components().4.wf()
        &&& self.components().5.wf()
        &&& self.components().6.wf()
    }

    open spec fn remaining(&self) -> Seq<Self::Item> {
        let a = self.components().0.remaining();
        let b = self.components().1.remaining();
        let c = self.components().2.remaining();
        let d = self.components().3.remaining();
        let e = self.components().4.remaining();
        let f = self.components().5.remaining();
        let g = self.components().6.remaining();
        let n = a.len();
        let n = least(n, b.len());
        let n = least(n, c.len());
        let n = least(n, d.len());
        let n = least(n, e.len());
        let n = least(n, f.len());
        let n = least(n, g.len());
        Seq::new(n, |at: int| (a[at], b[at], c[at], d[at], e[at], f[at], g[at]))
    }

    open spec fn size_estimate(&self) -> SizeEstimate {
        let a = self.components().0.size_estimate();
        let b = self.components().1.size_estimate();
        let c = self.components().2.size_estimate();
        let d = self.components().3.size_estimate();
        let e = self.components().4.size_estimate();
        let f = self.components().5.size_estimate();
        let g = self.components().6.size_estimate();
        let est = meet(a, b);
        let est = meet(est, c);
        let est = meet(est, d);
        let est = meet(est, e);
        let est = meet(est, f);
        let est = meet(est, g);
        est
    }

    /// Pulls from the components from left to right and stops at the first
    /// that has run dry: the components before it have then given up one
    /// element each, which is dropped, and those after it are untouched.
    fn next(&mut self) -> (r: Option<Self::Item>)
        ensures
            ({
                let a = old(self).components().0.remaining();
                let b = old(self).components().1.remaining();
                let c = old(self).components().2.remaining();
                let d = old(self).components().3.remaining();
                let e = old(self).components().4.remaining();
                let f = old(self).components().5.remaining();
                let g = old(self).components().6.remaining();
                let n1 = a.len();
                let n2 = least(n1, b.len());
                let n3 = least(n2, c.len());
                let n4 = least(n3, d.len());
                let n5 = least(n4, e.len());
                let n6 = least(n5, f.len());
                &&& final(self).components().0.remaining() == advance(a)
                &&& n1 > 0 ==> final(self).components().1.remaining() == advance(b)
                &&& n1 == 0 ==> final(self).components().1 == old(self).components().1
                &&& n2 > 0 ==> final(self).components().2.remaining() == advance(c)
                &&& n2 == 0 ==> final(self).components().2 == old(self).components().2
                &&& n3 > 0 ==> final(self).components().3.remaining() == advance(d)
                &&& n3 == 0 ==> final(self).components().3 == old(self).components().3
                &&& n4 > 0 ==> final(self).components().4.remaining() == advance(e)
                &&& n4 == 0 ==> final(self).components().4 == old(self).components().4
                &&& n5 > 0 ==> final(self).components().5.remaining() == advance(f)
                &&& n5 == 0 ==> final(self).components().5 == old(self).components().5
                &&& n6 > 0 ==> final(self).components().6.remaining() == advance(g)
                &&& n6 == 0 ==> final(self).components().6 == old(self).components().6
            }),
    {
        let a = match self.t.0.next() {
            None => return None,
            Some(elt) => elt,
        };
        let b = match self.t.1.next() {
            None => return None,
            Some(elt) => elt,
        };
        let c = match self.t.2.next() {
            None => return None,
            Some(elt) => elt,
        };
        let d = match self.t.3.next() {
            None => return None,
            Some(elt) => elt,
        };
        let e = match self.t.4.next() {
            None => return None,
            Some(elt) => elt,
        };
        let f = match self.t.5.next() {
            None => return None,
            Some(elt) => elt,
        };
        let g = match self.t.6.next() {
            None => return None,
            Some(elt) => elt,
        };
        proof {
            assert(final(self).remaining() =~= advance(old(self).remaining()));
        }
        Some((a, b, c, d, e, f, g))
    }

    fn size_hint(&self) -> (r: SizeEstimate) {
        let est = self.t.0.size_hint();
        let ghost mut n = self.t.0.remaining().len();
        let b = self.t.1.size_hint();
        proof {
            lemma_meet_bounds(est, n, b, self.t.1.remaining().len());
            n = least(n, self.t.1.remaining().len());
        }
        let est = combine(est, b);
        let c = self.t.2.size_hint();
        proof {
            lemma_meet_bounds(est, n, c, self.t.2.remaining().len());
            n = least(n, self.t.2.remaining().len());
        }
        let est = combine(est, c);
        let d = self.t.3.size_hint();
        proof {
            lemma_meet_bounds(est, n, d, self.t.3.remaining().len());
            n = least(n, self.t.3.remaining().len());
        }
        let est = combine(est, d);
        let e = self.t.4.size_hint();
        proof {
            lemma_meet_bounds(est, n, e, self.t.4.remaining().len());
            n = least(n, self.t.4.remaining().len());
        }
        let est = combine(est, e);
        let f = self.t.5.size_hint();
        proof {
            lemma_meet_bounds(est, n, f, self.t.5.remaining().len());
            n = least(n, self.t.5.remaining().len());
        }
        let est = combine(est, f);
        let g = self.t.6.size_hint();
        proof {
            lemma_meet_bounds(est, n, g, self.t.6.remaining().len());
            n = least(n, self.t.6.remaining().len());
        }
        combine(est, g)
    }
}

impl<
    A: Sequence,
    B: Sequence,
    C: Sequence,
    D: Sequence,
    E: Sequence,
    F: Sequence,
    G: Sequence,
> Zip<(A, B, C, D, E, F, G)> {
    /// A lockstep of seven sequences yields as many tuples as the shortest of
    /// them has elements, and the tuple at each position holds the components'
    /// elements at that position, in component order.
    pub proof fn lemma_tuples(&self)
        ensures
            ({
                let a = self.components().0.remaining();
                let b = self.components().1.remaining();
                let c = self.components().2.remaining();
                let d = self.components().3.remaining();
                let e = self.components().4.remaining();
                let f = self.components().5.remaining();
                let g = self.components().6.remaining();
                let n = self.remaining().len();
                &&& n <= a.len()
                &&& n <= b.len()
                &&& n <= c.len()
                &&& n <= d.len()
                &&& n <= e.len()
                &&& n <= f.len()
                &&& n <= g.len()
                &&& {
                    ||| n == a.len()
                    ||| n == b.len()
                    ||| n == c.len()
                    ||| n == d.len()
                    ||| n == e.len()
                    ||| n == f.len()
                    ||| n == g.len()
                }
                &&& forall|at: int|
                    0 <= at < n ==> #[trigger] self.remaining()[at]
                        == (a[at], b[at], c[at], d[at], e[at], f[at], g[at])
            }),
    {
    }

    /// The estimate's lower bound is the least of the components' lower
    /// bounds. Its upper bound is the least of the components' upper bounds
    /// where every component reports one, and absent as soon as one is absent.
    pub proof fn lemma_estimate(&self)
        ensures
            ({
                let a = self.components().0.size_estimate();
                let b = self.components().1.size_estimate();
                let c = self.components().2.size_estimate();
                let d = self.components().3.size_estimate();
                let e = self.components().4.size_estimate();
                let f = self.components().5.size_estimate();
                let g = self.components().6.size_estimate();
                let est = self.size_estimate();
                &&& est.0 <= a.0
                &&& est.0 <= b.0
                &&& est.0 <= c.0
                &&& est.0 <= d.0
                &&& est.0 <= e.0
                &&& est.0 <= f.0
                &&& est.0 <= g.0
                &&& {
                    ||| est.0 == a.0
                    ||| est.0 == b.0
                    ||| est.0 == c.0
                    ||| est.0 == d.0
                    ||| est.0 == e.0
                    ||| est.0 == f.0
                    ||| est.0 == g.0
                }
                &&& est.1 is None <==> {
                    ||| a.1 is None
                    ||| b.1 is None
                    ||| c.1 is None
                    ||| d.1 is None
                    ||| e.1 is None
                    ||| f.1 is None
                    ||| g.1 is None
                }
                &&& est.1 matches Some(u) ==> {
                    &&& u <= a.1.unwrap()
                    &&& u <= b.1.unwrap()
                    &&& u <= c.1.unwrap()
                    &&& u <= d.1.unwrap()
                    &&& u <= e.1.unwrap()
                    &&& u <= f.1.unwrap()
                    &&& u <= g.1.unwrap()
                    &&& {
                        ||| a.1 == Some(u)
                        ||| b.1 == Some(u)
                        ||| c.1 == Some(u)
                        ||| d.1 == Some(u)
                        ||| e.1 == Some(u)
                        ||| f.1 == Some(u)
                        ||| g.1 == Some(u)
                    }
                }
            }),
    {
    }
}

impl<
    A: Sequence,
    B: Sequence,
    C: Sequence,
    D: Sequence,
    E: Sequence,
    F: Sequence,
    G: Sequence,
    H: Sequence,
> Sequence for Zip<(A, B, C, D, E, F, G, H)> {
    type Item = (A::Item, B::Item, C::Item, D::Item, E::Item, F::Item, G::Item, H::Item);

    open spec fn wf(&self) -> bool {
        &&& self.components().0.wf()
        &&& self.components().1.wf()
        &&& self.components().2.wf()
        &&& self.components().3.wf()
        &&& self.components().4.wf()
        &&& self.components().5.wf()
        &&& self.components().6.wf()
        &&& self.components().7.wf()
    }

    open spec fn remaining(&self) -> Seq<Self::Item> {
        let a = self.components().0.remaining();
        let b = self.components().1.remaining();
        let c = self.components().2.remaining();
        let d = self.components().3.remaining();
        let e = self.components().4.remaining();
        let f = self.components().5.remaining();
        let g = self.components().6.remaining();
        let h = self.components().7.remaining();
        let n = a.len();
        let n = least(n, b.len());
        let n = least(n, c.len());
        let n = least(n, d.len());
        let n = least(n, e.len());
        let n = least(n, f.len());
        let n = least(n, g.len());
        let n = least(n, h.len());
        Seq::new(n, |at: int| (a[at], b[at], c[at], d[at], e[at], f[at], g[at], h[at]))
    }

    open spec fn size_estimate(&self) -> SizeEstimate {
        let a = self.components().0.size_estimate();
        let b = self.components().1.size_estimate();
        let c = self.components().2.size_estimate();
        let d = self.components().3.size_estimate();
        let e = self.components().4.size_estimate();
        let f = self.components().5.size_estimate();
        let g = self.components().6.size_estimate();
        let h = self.components().7.size_estimate();
        let est = meet(a, b);
        let est = meet(est, c);
        let est = meet(est, d);
        let est = meet(est, e);
        let est = meet(est, f);
        let est = meet(est, g);
        let est = meet(est, h);
        est
    }

    /// Pulls from the components from left to right and stops at the first
    /// that has run dry: the components before it have then given up one
    /// element each, which is dropped, and those after it are untouched.
    fn next(&mut self) -> (r: Option<Self::Item>)
        ensures
            ({
                let a = old(self).components().0.remaining();
                let b = old(self).components().1.remaining();
                let c = old(self).components().2.remaining();
                let d = old(self).components().3.remaining();
                let e = old(self).components().4.remaining();
                let f = old(self).components().5.remaining();
                let g = old(self).components().6.remaining();
                let h = old(self).components().7.remaining();
                let n1 = a.len();
                let n2 = least(n1, b.len());
                let n3 = least(n2, c.len());
                let n4 = least(n3, d.len());
                let n5 = least(n4, e.len());
                let n6 = least(n5, f.len());
                let n7 = least(n6, g.len());
                &&& final(self).components().0.remaining() == advance(a)
                &&& n1 > 0 ==> final(self).components().1.remaining() == advance(b)
                &&& n1 == 0 ==> final(self).components().1 == old(self).components().1
                &&& n2 > 0 ==> final(self).components().2.remaining() == advance(c)
                &&& n2 == 0 ==> final(self).components().2 == old(self).components().2
                &&& n3 > 0 ==> final(self).components().3.remaining() == advance(d)
                &&& n3 == 0 ==> final(self).components().3 == old(self).components().3
                &&& n4 > 0 ==> final(self).components().4.remaining() == advance(e)
                &&& n4 == 0 ==> final(self).components().4 == old(self).components().4
                &&& n5 > 0 ==> final(self).components().5.remaining() == advance(f)
                &&& n5 == 0 ==> final(self).components().5 == old(self).components().5
                &&& n6 > 0 ==> final(self).components().6.remaining() == advance(g)
                &&& n6 == 0 ==> final(self).components().6 == old(self).components().6
                &&& n7 > 0 ==> final(self).components().7.remaining() == advance(h)
                &&& n7 == 0 ==> final(self).components().7 == old(self).components().7
            }),
    {
        let a = match self.t.0.next() {
            None => return None,
            Some(elt) => elt,
        };
        let b = match self.t.1.next() {
            None => return None,
            Some(elt) => elt,
        };
        let c = match self.t.2.next() {
            None => return None,
            Some(elt) => elt,
        };
        let d = match self.t.3.next() {
            None => return None,
            Some(elt) => elt,
        };
        let e = match self.t.4.next() {
            None => return None,
            Some(elt) => elt,
        };
        let f = match self.t.5.next() {
            None => return None,
            Some(elt) => elt,
        };
        let g = match self.t.6.next() {
            None => return None,
            Some(elt) => elt,
        };
        let h = match self.t.7.next() {
            None => return None,
            Some(elt) => elt,
        };
        proof {
            assert(final(self).remaining() =~= advance(old(self).remaining()));
        }
        Some((a, b, c, d, e, f, g, h))
    }

    fn size_hint(&self) -> (r: SizeEstimate) {
        let est = self.t.0.size_hint();
        let ghost mut n = self.t.0.remaining().len();
        let b = self.t.1.size_hint();
        proof {
            lemma_meet_bounds(est, n, b, self.t.1.remaining().len());
            n = least(n, self.t.1.remaining().len());
        }
        let est = combine(est, b);
        let c = self.t.2.size_hint();
        proof {
            lemma_meet_bounds(est, n, c, self.t.2.remaining().len());
            n = least(n, self.t.2.remaining().len());
        }
        let est = combine(est, c);
        let d = self.t.3.size_hint();
        proof {
            lemma_meet_bounds(est, n, d, self.t.3.remaining().len());
            n = least(n, self.t.3.remaining().len());
        }
        let est = combine(est, d);
        let e = self.t.4.size_hint();
        proof {
            lemma_meet_bounds(est, n, e, self.t.4.remaining().len());
            n = least(n, self.t.4.remaining().len());
        }
        let est = combine(est, e);
        let f = self.t.5.size_hint();
        proof {
            lemma_meet_bounds(est, n, f, self.t.5.remaining().len());
            n = least(n, self.t.5.remaining().len());
        }
        let est = combine(est, f);
        let g = self.t.6.size_hint();
        proof {
            lemma_meet_bounds(est, n, g, self.t.6.remaining().len());
            n = least(n, self.t.6.remaining().len());
        }
        let est = combine(est, g);
        let h = self.t.7.size_hint();
        proof {
            lemma_meet_bounds(est, n, h, self.t.7.remaining().len());
            n = least(n, self.t.7.remaining().len());
        }
        combine(est, h)
    }
}

impl<
    A: Sequence,
    B: Sequence,
    C: Sequence,
    D: Sequence,
    E: Sequence,
    F: Sequence,
    G: Sequence,
    H: Sequence,
> Zip<(A, B, C, D, E, F, G, H)> {
    /// A lockstep of eight sequences yields as many tuples as the shortest of
    /// them has elements, and the tuple at each position holds the components'
    /// elements at that position, in component order.
    pub proof fn lemma_tuples(&self)
        ensures
            ({
                let a = self.components().0.remaining();
                let b = self.components().1.remaining();
                let c = self.components().2.remaining();
                let d = self.components().3.remaining();
                let e = self.components().4.remaining();
                let f = self.components().5.remaining();
                let g = self.components().6.remaining();
                let h = self.components().7.remaining();
                let n = self.remaining().len();
                &&& n <= a.len()
                &&& n <= b.len()
                &&& n <= c.len()
                &&& n <= d.len()
                &&& n <= e.len()
                &&& n <= f.len()
                &&& n <= g.len()
                &&& n <= h.len()
                &&& {
                    ||| n == a.len()
                    ||| n == b.len()
                    ||| n == c.len()
                    ||| n == d.len()
                    ||| n == e.len()
                    ||| n == f.len()
                    ||| n == g.len()
                    ||| n == h.len()
                }
                &&& forall|at: int|
                    0 <= at < n ==> #[trigger] self.remaining()[at]
                        == (a[at], b[at], c[at], d[at], e[at], f[at], g[at], h[at])
            }),
    {
    }

    /// The estimate's lower bound is the least of the components' lower
    /// bounds. Its upper bound is the least of the components' upper bounds
    /// where every component reports one, and absent as soon as one is absent.
    pub proof fn lemma_estimate(&self)
        ensures
            ({
                let a = self.components().0.size_estimate();
                let b = self.components().1.size_estimate();
                let c = self.components().2.size_estimate();
                let d = self.components().3.size_estimate();
                let e = self.components().4.size_estimate();
                let f = self.components().5.size_estimate();
                let g = self.components().6.size_estimate();
                let h = self.components().7.size_estimate();
                let est = self.size_estimate();
                &&& est.0 <= a.0
                &&& est.0 <= b.0
                &&& est.0 <= c.0
                &&& est.0 <= d.0
                &&& est.0 <= e.0
                &&& est.0 <= f.0
                &&& est.0 <= g.0
                &&& est.0 <= h.0
                &&& {
                    ||| est.0 == a.0
                    ||| est.0 == b.0
                    ||| est.0 == c.0
                    ||| est.0 == d.0
                    ||| est.0 == e.0
                    ||| est.0 == f.0
                    ||| est.0 == g.0
                    ||| est.0 == h.0
                }
                &&& est.1 is None <==> {
                    ||| a.1 is None
                    ||| b.1 is None
                    ||| c.1 is None
                    ||| d.1 is None
                    ||| e.1 is None
                    ||| f.1 is None
                    ||| g.1 is None
                    ||| h.1 is None
                }
                &&& est.1 matches Some(u) ==> {
                    &&& u <= a.1.unwrap()
                    &&& u <= b.1.unwrap()
                    &&& u <= c.1.unwrap()
                    &&& u <= d.1.unwrap()
                    &&& u <= e.1.unwrap()
                    &&& u <= f.1.unwrap()
                    &&& u <= g.1.unwrap()
                    &&& u <= h.1.unwrap()
                    &&& {
                        ||| a.1 == Some(u)
                        ||| b.1 == Some(u)
                        ||| c.1 == Some(u)
                        ||| d.1 == Some(u)
                        ||| e.1 == Some(u)
                        ||| f.1 == Some(u)
                        ||| g.1 == Some(u)
                        ||| h.1 == Some(u)
                    }
                }
            }),
    {
    }
}

impl<
    A: Sequence,
    B: Sequence,
    C: Sequence,
    D: Sequence,
    E: Sequence,
    F: Sequence,
    G: Sequence,
    H: Sequence,
    I: Sequence,
> Sequence for Zip<(A, B, C, D, E, F, G, H, I)> {
    type Item = (A::Item, B::Item, C::Item, D::Item, E::Item, F::Item, G::Item, H::Item, I::Item);

    open spec fn wf(&self) -> bool {
        &&& self.components().0.wf()
        &&& self.components().1.wf()
        &&& self.components().2.wf()
        &&& self.components().3.wf()
        &&& self.components().4.wf()
        &&& self.components().5.wf()
        &&& self.components().6.wf()
        &&& self.components().7.wf()
        &&& self.components().8.wf()
    }

    open spec fn remaining(&self) -> Seq<Self::Item> {
        let a = self.components().0.remaining();
        let b = self.components().1.remaining();
        let c = self.components().2.remaining();
        let d = self.components().3.remaining();
        let e = self.components().4.remaining();
        let f = self.components().5.remaining();
        let g = self.components().6.remaining();
        let h = self.components().7.remaining();
        let i = self.components().8.remaining();
        let n = a.len();
        let n = least(n, b.len());
        let n = least(n, c.len());
        let n = least(n, d.len());
        let n = least(n, e.len());
        let n = least(n, f.len());
        let n = least(n, g.len());
        let n = least(n, h.len());
        let n = least(n, i.len());
        Seq::new(n, |at: int| (a[at], b[at], c[at], d[at], e[at], f[at], g[at], h[at], i[at]))
    }

    open spec fn size_estimate(&self) -> SizeEstimate {
        let a = self.components().0.size_estimate();
        let b = self.components().1.size_estimate();
        let c = self.components().2.size_estimate();
        let d = self.components().3.size_estimate();
        let e = self.components().4.size_estimate();
        let f = self.components().5.size_estimate();
        let g = self.components().6.size_estimate();
        let h = self.components().7.size_estimate();
        let i = self.components().8.size_estimate();
        let est = meet(a, b);
        let est = meet(est, c);
        let est = meet(est, d);
        let est = meet(est, e);
        let est = meet(est, f);
        let est = meet(est, g);
        let est = meet(est, h);
        let est = meet(est, i);
        est
    }

    /// Pulls from the components from left to right and stops at the first
    /// that has run dry: the components before it have then given up one
    /// element each, which is dropped, and those after it are untouched.
    fn next(&mut self) -> (r: Option<Self::Item>)
        ensures
            ({
                let a = old(self).components().0.remaining();
                let b = old(self).components().1.remaining();
                let c = old(self).components().2.remaining();
                let d = old(self).components().3.remaining();
                let e = old(self).components().4.remaining();
                let f = old(self).components().5.remaining();
                let g = old(self).components().6.remaining();
                let h = old(self).components().7.remaining();
                let i = old(self).components().8.remaining();
                let n1 = a.len();
                let n2 = least(n1, b.len());
                let n3 = least(n2, c.len());
                let n4 = least(n3, d.len());
                let n5 = least(n4, e.len());
                let n6 = least(n5, f.len());
                let n7 = least(n6, g.len());
                let n8 = least(n7, h.len());
                &&& final(self).components().0.remaining() == advance(a)
                &&& n1 > 0 ==> final(self).components().1.remaining() == advance(b)
                &&& n1 == 0 ==> final(self).components().1 == old(self).components().1
                &&& n2 > 0 ==> final(self).components().2.remaining() == advance(c)
                &&& n2 == 0 ==> final(self).components().2 == old(self).components().2
                &&& n3 > 0 ==> final(self).components().3.remaining() == advance(d)
                &&& n3 == 0 ==> final(self).components().3 == old(self).components().3
                &&& n4 > 0 ==> final(self).components().4.remaining() == advance(e)
                &&& n4 == 0 ==> final(self).components().4 == old(self).components().4
                &&& n5 > 0 ==> final(self).components().5.remaining() == advance(f)
                &&& n5 == 0 ==> final(self).components().5 == old(self).components().5
                &&& n6 > 0 ==> final(self).components().6.remaining() == advance(g)
                &&& n6 == 0 ==> final(self).components().6 == old(self).components().6
                &&& n7 > 0 ==> final(self).components().7.remaining() == advance(h)
                &&& n7 == 0 ==> final(self).components().7 == old(self).components().7
                &&& n8 > 0 ==> final(self).components().8.remaining() == advance(i)
                &&& n8 == 0 ==> final(self).components().8 == old(self).components().8
            }),
    {
        let a = match self.t.0.next() {
            None => return None,
            Some(elt) => elt,
        };
        let b = match self.t.1.next() {
            None => return None,
            Some(elt) => elt,
        };
        let c = match self.t.2.next() {
            None => return None,
            Some(elt) => elt,
        };
        let d = match self.t.3.next() {
            None => return None,
            Some(elt) => elt,
        };
        let e = match self.t.4.next() {
            None => return None,
            Some(elt) => elt,
        };
        let f = match self.t.5.next() {
            None => return None,
            Some(elt) => elt,
        };
        let g = match self.t.6.next() {
            None => return None,
            Some(elt) => elt,
        };
        let h = match self.t.7.next() {
            None => return None,
            Some(elt) => elt,
        };
        let i = match self.t.8.next() {
            None => return None,
            Some(elt) => elt,
        };
        proof {
            assert(final(self).remaining() =~= advance(old(self).remaining()));
        }
        Some((a, b, c, d, e, f, g, h, i))
    }

    fn size_hint(&self) -> (r: SizeEstimate) {
        let est = self.t.0.size_hint();
        let ghost mut n = self.t.0.remaining().len();
        let b = self.t.1.size_hint();
        proof {
            lemma_meet_bounds(est, n, b, self.t.1.remaining().len());
            n = least(n, self.t.1.remaining().len());
        }
        let est = combine(est, b);
        let c = self.t.2.size_hint();
        proof {
            lemma_meet_bounds(est, n, c, self.t.2.remaining().len());
            n = least(n, self.t.2.remaining().len());
        }
        let est = combine(est, c);
        let d = self.t.3.size_hint();
        proof {
            lemma_meet_bounds(est, n, d, self.t.3.remaining().len());
            n = least(n, self.t.3.remaining().len());
        }
        let est = combine(est, d);
        let e = self.t.4.size_hint();
        proof {
            lemma_meet_bounds(est, n, e, self.t.4.remaining().len());
            n = least(n, self.t.4.remaining().len());
        }
        let est = combine(est, e);
        let f = self.t.5.size_hint();
        proof {
            lemma_meet_bounds(est, n, f, self.t.5.remaining().len());
            n = least(n, self.t.5.remaining().len());
        }
        let est = combine(est, f);
        let g = self.t.6.size_hint();
        proof {
            lemma_meet_bounds(est, n, g, self.t.6.remaining().len());
            n = least(n, self.t.6.remaining().len());
        }
        let est = combine(est, g);
        let h = self.t.7.size_hint();
        proof {
            lemma_meet_bounds(est, n, h, self.t.7.remaining().len());
            n = least(n, self.t.7.remaining().len());
        }
        let est = combine(est, h);
        let i = self.t.8.size_hint();
        proof {
            lemma_meet_bounds(est, n, i, self.t.8.remaining().len());
            n = least(n, self.t.8.remaining().len());
        }
        combine(est, i)
    }
}

impl<
    A: Sequence,
    B: Sequence,
    C: Sequence,
    D: Sequence,
    E: Sequence,
    F: Sequence,
    G: Sequence,
    H: Sequence,
    I: Sequence,
> Zip<(A, B, C, D, E, F, G, H, I)> {
    /// A lockstep of nine sequences yields as many tuples as the shortest of
    /// them has elements, and the tuple at each position holds the components'
    /// elements at that position, in component order.
    pub proof fn lemma_tuples(&self)
        ensures
            ({
                let a = self.components().0.remaining();
                let b = self.components().1.remaining();
                let c = self.components().2.remaining();
                let d = self.components().3.remaining();
                let e = self.components().4.remaining();
                let f = self.components().5.remaining();
                let g = self.components().6.remaining();
                let h = self.components().7.remaining();
                let i = self.components().8.remaining();
                let n = self.remaining().len();
                &&& n <= a.len()
                &&& n <= b.len()
                &&& n <= c.len()
                &&& n <= d.len()
                &&& n <= e.len()
                &&& n <= f.len()
                &&& n <= g.len()
                &&& n <= h.len()
                &&& n <= i.len()
                &&& {
                    ||| n == a.len()
                    ||| n == b.len()
                    ||| n == c.len()
                    ||| n == d.len()
                    ||| n == e.len()
                    ||| n == f.len()
                    ||| n == g.len()
                    ||| n == h.len()
                    ||| n == i.len()
                }
                &&& forall|at: int|
                    0 <= at < n ==> #[trigger] self.remaining()[at]
                        == (a[at], b[at], c[at], d[at], e[at], f[at], g[at], h[at], i[at])
            }),
    {
    }

    /// The estimate's lower bound is the least of the components' lower
    /// bounds. Its upper bound is the least of the components' upper bounds
    /// where every component reports one, and absent as soon as one is absent.
    pub proof fn lemma_estimate(&self)
        ensures
            ({
                let a = self.components().0.size_estimate();
                let b = self.components().1.size_estimate();
                let c = self.components().2.size_estimate();
                let d = self.components().3.size_estimate();
                let e = self.components().4.size_estimate();
                let f = self.components().5.size_estimate();
                let g = self.components().6.size_estimate();
                let h = self.components().7.size_estimate();
                let i = self.components().8.size_estimate();
                let est = self.size_estimate();
                &&& est.0 <= a.0
                &&& est.0 <= b.0
                &&& est.0 <= c.0
                &&& est.0 <= d.0
                &&& est.0 <= e.0
                &&& est.0 <= f.0
                &&& est.0 <= g.0
                &&& est.0 <= h.0
                &&& est.0 <= i.0
                &&& {
                    ||| est.0 == a.0
                    ||| est.0 == b.0
                    ||| est.0 == c.0
                    ||| est.0 == d.0
                    ||| est.0 == e.0
                    ||| est.0 == f.0
                    ||| est.0 == g.0
                    ||| est.0 == h.0
                    ||| est.0 == i.0
                }
                &&& est.1 is None <==> {
                    ||| a.1 is None
                    ||| b.1 is None
                    ||| c.1 is None
                    ||| d.1 is None
                    ||| e.1 is None
                    ||| f.1 is None
                    ||| g.1 is None
                    ||| h.1 is None
                    ||| i.1 is None
                }
                &&& est.1 matches Some(u) ==> {
                    &&& u <= a.1.unwrap()
                    &&& u <= b.1.unwrap()
                    &&& u <= c.1.unwrap()
                    &&& u <= d.1.unwrap()
                    &&& u <= e.1.unwrap()
                    &&& u <= f.1.unwrap()
                    &&& u <= g.1.unwrap()
                    &&& u <= h.1.unwrap()
                    &&& u <= i.1.unwrap()
                    &&& {
                        ||| a.1 == Some(u)
                        ||| b.1 == Some(u)
                        ||| c.1 == Some(u)
                        ||| d.1 == Some(u)
                        ||| e.1 == Some(u)
                        ||| f.1 == Some(u)
                        ||| g.1 == Some(u)
                        ||| h.1 == Some(u)
                        ||| i.1 == Some(u)
                    }
                }
            }),
    {
    }
}
} // verus!

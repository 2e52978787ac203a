//! The lockstep combinator for components of exactly known size.

use vstd::prelude::*;
use crate::sequence::{advance, exact, least, lesser, Sequence, SizeEstimate, TrustedIterator};

verus! {

/// A tuple of sequences that all hold the exact-size capability.
pub trait TrustedTuple {
    /// Every component is valid.
    spec fn wf(&self) -> bool;

    /// The least of the components' remaining lengths.
    spec fn shortest(&self) -> nat;

    /// Computes `shortest` from the components' size estimates.
    fn exact_len(&self) -> (n: usize)
        requires
            self.wf(),
        ensures
            n == self.shortest(),
    ;
}

/// Runs several sequences of exactly known size in lockstep.
///
/// `ZipTrusted<(A, B, ..)>` is formed from a tuple of one to nine sequences
/// that hold [`TrustedIterator`]. It computes the number of tuples once, when
/// it is made, and afterwards checks only that count, once per step.
#[derive(Clone)]
pub struct ZipTrusted<T> {
    length: usize,
    t: T,
}

impl<T> ZipTrusted<T> {
    /// The wrapped tuple of component sequences.
    pub closed spec fn components(&self) -> T {
        self.t
    }

    /// The cached number of tuples still to come.
    pub closed spec fn length(&self) -> usize {
        self.length
    }

    /// Gives the component sequences back, each as far along as the stepping
    /// has left it.
    pub fn into_inner(self) -> (t: T)
        ensures
            t == self.components(),
    {
        self.t
    }
}

impl<T: TrustedTuple> ZipTrusted<T> {
    /// Wraps a tuple of exact-size sequences and caches the least of their
    /// remaining lengths.
    pub fn new(t: T) -> (z: ZipTrusted<T>)
        requires
            t.wf(),
        ensures
            z.components() == t,
            z.length() == t.shortest(),
    {
        let n = t.exact_len();
        ZipTrusted { length: n, t: t }
    }
}

impl<A: TrustedIterator> TrustedTuple for (A,) {
    open spec fn wf(&self) -> bool {
        &&& self.0.wf()
    }

    open spec fn shortest(&self) -> nat {
        self.0.remaining().len()
    }

    fn exact_len(&self) -> (n: usize) {
        let len = usize::MAX;
        let (l, h) = self.0.size_hint();
        proof {
            self.0.lemma_exact_size();
            assert(h == Some(l));
        }
        lesser(len, l)
    }
}

impl<A: TrustedIterator> Sequence for ZipTrusted<(A,)> {
    type Item = (A::Item,);

    open spec fn wf(&self) -> bool {
        &&& self.components().wf()
        &&& self.length() == self.components().shortest()
    }

    open spec fn remaining(&self) -> Seq<Self::Item> {
        let a = self.components().0.remaining();
        Seq::new(a.len(), |at: int| (a[at],))
    }

    open spec fn size_estimate(&self) -> SizeEstimate {
        (self.length(), Some(self.length()))
    }

    /// With a count of zero, answers `None` and touches no component.
    /// Otherwise every component is known to hold an element: each gives up
    /// one, and the count goes down by one.
    fn next(&mut self) -> (r: Option<Self::Item>)
        ensures
            old(self).length() == 0 ==> r is None && *final(self) == *old(self),
            old(self).length() > 0 ==> r is Some && final(self).length() == old(self).length() - 1,
            old(self).length() > 0 ==> final(self).components().0.remaining() == advance(
                old(self).components().0.remaining(),
            ),
            r is None ==> final(self).size_estimate() == (0usize, Some(0usize)),
    {
        if self.length == 0 {
            return None;
        }
        let a = self.t.0.next().unwrap();
        self.length -= 1;
        proof {
            assert(final(self).remaining() =~= advance(old(self).remaining()));
        }
        Some((a,))
    }

    fn size_hint(&self) -> (r: SizeEstimate)
        ensures
            exact(r, self.remaining().len()),
    {
        (self.length, Some(self.length))
    }
}

impl<A: TrustedIterator> ZipTrusted<(A,)> {
    /// In every valid state the cached count is the number of tuples still
    /// to come, the least of the components' remaining lengths, and the
    /// estimate names it exactly: once nothing remains, it reads zero and zero.
    pub proof fn lemma_length(&self)
        requires
            self.wf(),
        ensures
            self.length() == self.remaining().len(),
            exact(self.size_estimate(), self.remaining().len()),
            self.remaining().len() == 0 ==> self.size_estimate() == (0usize, Some(0usize)),
            self.length() == self.components().shortest(),
            self.length() == self.components().0.remaining().len(),
    {
    }
}

impl<A: TrustedIterator, B: TrustedIterator> TrustedTuple for (A, B) {
    open spec fn wf(&self) -> bool {
        &&& self.0.wf()
        &&& self.1.wf()
    }

    open spec fn shortest(&self) -> nat {
        let n = self.0.remaining().len();
        let n = least(n, self.1.remaining().len());
        n
    }

    fn exact_len(&self) -> (n: usize) {
        let len = usize::MAX;
        let (l, h) = self.0.size_hint();
        proof {
            self.0.lemma_exact_size();
            assert(h == Some(l));
        }
        let len = lesser(len, l);
        let (l, h) = self.1.size_hint();
        proof {
            self.1.lemma_exact_size();
            assert(h == Some(l));
        }
        lesser(len, l)
    }
}

impl<A: TrustedIterator, B: TrustedIterator> Sequence for ZipTrusted<(A, B)> {
    type Item = (A::Item, B::Item);

    open spec fn wf(&self) -> bool {
        &&& self.components().wf()
        &&& self.length() == self.components().shortest()
    }

    open spec fn remaining(&self) -> Seq<Self::Item> {
        let a = self.components().0.remaining();
        let b = self.components().1.remaining();
        let n = a.len();
        let n = least(n, b.len());
        Seq::new(n, |at: int| (a[at], b[at]))
    }

    open spec fn size_estimate(&self) -> SizeEstimate {
        (self.length(), Some(self.length()))
    }

    /// With a count of zero, answers `None` and touches no component.
    /// Otherwise every component is known to hold an element: each gives up
    /// one, and the count goes down by one.
    fn next(&mut self) -> (r: Option<Self::Item>)
        ensures
            old(self).length() == 0 ==> r is None && *final(self) == *old(self),
            old(self).length() > 0 ==> r is Some && final(self).length() == old(self).length() - 1,
            old(self).length() > 0 ==> final(self).components().0.remaining() == advance(
                old(self).components().0.remaining(),
            ),
            old(self).length() > 0 ==> final(self).components().1.remaining() == advance(
                old(self).components().1.remaining(),
            ),
            r is None ==> final(self).size_estimate() == (0usize, Some(0usize)),
    {
        if self.length == 0 {
            return None;
        }
        let a = self.t.0.next().unwrap();
        let b = self.t.1.next().unwrap();
        self.length -= 1;
        proof {
            assert(final(self).remaining() =~= advance(old(self).remaining()));
        }
        Some((a, b))
    }

    fn size_hint(&self) -> (r: SizeEstimate)
        ensures
            exact(r, self.remaining().len()),
    {
        (self.length, Some(self.length))
    }
}

impl<A: TrustedIterator, B: TrustedIterator> ZipTrusted<(A, B)> {
    /// In every valid state the cached count is the number of tuples still
    /// to come, the least of the components' remaining lengths, and the
    /// estimate names it exactly: once nothing remains, it reads zero and zero.
    pub proof fn lemma_length(&self)
        requires
            self.wf(),
        ensures
            self.length() == self.remaining().len(),
            exact(self.size_estimate(), self.remaining().len()),
            self.remaining().len() == 0 ==> self.size_estimate() == (0usize, Some(0usize)),
            self.length() == self.components().shortest(),
            self.length() <= self.components().0.remaining().len(),
            self.length() <= self.components().1.remaining().len(),
            ({
                ||| self.length() == self.components().0.remaining().len()
                ||| self.length() == self.components().1.remaining().len()
            }),
    {
    }
}

impl<
    A: TrustedIterator,
    B: TrustedIterator,
    C: TrustedIterator,
> TrustedTuple for (A, B, C) {
    open spec fn wf(&self) -> bool {
        &&& self.0.wf()
        &&& self.1.wf()
        &&& self.2.wf()
    }

    open spec fn shortest(&self) -> nat {
        let n = self.0.remaining().len();
        let n = least(n, self.1.remaining().len());
        let n = least(n, self.2.remaining().len());
        n
    }

    fn exact_len(&self) -> (n: usize) {
        let len = usize::MAX;
        let (l, h) = self.0.size_hint();
        proof {
            self.0.lemma_exact_size();
            assert(h == Some(l));
        }
        let len = lesser(len, l);
        let (l, h) = self.1.size_hint();
        proof {
            self.1.lemma_exact_size();
            assert(h == Some(l));
        }
        let len = lesser(len, l);
        let (l, h) = self.2.size_hint();
        proof {
            self.2.lemma_exact_size();
            assert(h == Some(l));
        }
        lesser(len, l)
    }
}

impl<
    A: TrustedIterator,
    B: TrustedIterator,
    C: TrustedIterator,
> Sequence for ZipTrusted<(A, B, C)> {
    type Item = (A::Item, B::Item, C::Item);

    open spec fn wf(&self) -> bool {
        &&& self.components().wf()
        &&& self.length() == self.components().shortest()
    }

    open spec fn remaining(&self) -> Seq<Self::Item> {
        let a = self.components().0.remaining();
        let b = self.components().1.remaining();
        let c = self.components().2.remaining();
        let n = a.len();
        let n = least(n, b.len());
        let n = least(n, c.len());
        Seq::new(n, |at: int| (a[at], b[at], c[at]))
    }

    open spec fn size_estimate(&self) -> SizeEstimate {
        (self.length(), Some(self.length()))
    }

    /// With a count of zero, answers `None` and touches no component.
    /// Otherwise every component is known to hold an element: each gives up
    /// one, and the count goes down by one.
    fn next(&mut self) -> (r: Option<Self::Item>)
        ensures
            old(self).length() == 0 ==> r is None && *final(self) == *old(self),
            old(self).length() > 0 ==> r is Some && final(self).length() == old(self).length() - 1,
            old(self).length() > 0 ==> final(self).components().0.remaining() == advance(
                old(self).components().0.remaining(),
            ),
            old(self).length() > 0 ==> final(self).components().1.remaining() == advance(
                old(self).components().1.remaining(),
            ),
            old(self).length() > 0 ==> final(self).components().2.remaining() == advance(
                old(self).components().2.remaining(),
            ),
            r is None ==> final(self).size_estimate() == (0usize, Some(0usize)),
    {
        if self.length == 0 {
            return None;
        }
        let a = self.t.0.next().unwrap();
        let b = self.t.1.next().unwrap();
        let c = self.t.2.next().unwrap();
        self.length -= 1;
        proof {
            assert(final(self).remaining() =~= advance(old(self).remaining()));
        }
        Some((a, b, c))
    }

    fn size_hint(&self) -> (r: SizeEstimate)
        ensures
            exact(r, self.remaining().len()),
    {
        (self.length, Some(self.length))
    }
}

impl<
    A: TrustedIterator,
    B: TrustedIterator,
    C: TrustedIterator,
> ZipTrusted<(A, B, C)> {
    /// In every valid state the cached count is the number of tuples still
    /// to come, the least of the components' remaining lengths, and the
    /// estimate names it exactly: once nothing remains, it reads zero and zero.
    pub proof fn lemma_length(&self)
        requires
            self.wf(),
        ensures
            self.length() == self.remaining().len(),
            exact(self.size_estimate(), self.remaining().len()),
            self.remaining().len() == 0 ==> self.size_estimate() == (0usize, Some(0usize)),
            self.length() == self.components().shortest(),
            self.length() <= self.components().0.remaining().len(),
            self.length() <= self.components().1.remaining().len(),
            self.length() <= self.components().2.remaining().len(),
            ({
                ||| self.length() == self.components().0.remaining().len()
                ||| self.length() == self.components().1.remaining().len()
                ||| self.length() == self.components().2.remaining().len()
            }),
    {
    }
}

impl<
    A: TrustedIterator,
    B: TrustedIterator,
    C: TrustedIterator,
    D: TrustedIterator,
> TrustedTuple for (A, B, C, D) {
    open spec fn wf(&self) -> bool {
        &&& self.0.wf()
        &&& self.1.wf()
        &&& self.2.wf()
        &&& self.3.wf()
    }

    open spec fn shortest(&self) -> nat {
        let n = self.0.remaining().len();
        let n = least(n, self.1.remaining().len());
        let n = least(n, self.2.remaining().len());
        let n = least(n, self.3.remaining().len());
        n
    }

    fn exact_len(&self) -> (n: usize) {
        let len = usize::MAX;
        let (l, h) = self.0.size_hint();
        proof {
            self.0.lemma_exact_size();
            assert(h == Some(l));
        }
        let len = lesser(len, l);
        let (l, h) = self.1.size_hint();
        proof {
            self.1.lemma_exact_size();
            assert(h == Some(l));
        }
        let len = lesser(len, l);
        let (l, h) = self.2.size_hint();
        proof {
            self.2.lemma_exact_size();
            assert(h == Some(l));
        }
        let len = lesser(len, l);
        let (l, h) = self.3.size_hint();
        proof {
            self.3.lemma_exact_size();
            assert(h == Some(l));
        }
        lesser(len, l)
    }
}

impl<
    A: TrustedIterator,
    B: TrustedIterator,
    C: TrustedIterator,
    D: TrustedIterator,
> Sequence for ZipTrusted<(A, B, C, D)> {
    type Item = (A::Item, B::Item, C::Item, D::Item);

    open spec fn wf(&self) -> bool {
        &&& self.components().wf()
        &&& self.length() == self.components().shortest()
    }

    open spec fn remaining(&self) -> Seq<Self::Item> {
        let a = self.components().0.remaining();
        let b = self.components().1.remaining();
        let c = self.components().2.remaining();
        let d = self.components().3.remaining();
        let n = a.len();
        let n = least(n, b.len());
        let n = least(n, c.len());
        let n = least(n, d.len());
        Seq::new(n, |at: int| (a[at], b[at], c[at], d[at]))
    }

    open spec fn size_estimate(&self) -> SizeEstimate {
        (self.length(), Some(self.length()))
    }

    /// With a count of zero, answers `None` and touches no component.
    /// Otherwise every component is known to hold an element: each gives up
    /// one, and the count goes down by one.
    fn next(&mut self) -> (r: Option<Self::Item>)
        ensures
            old(self).length() == 0 ==> r is None && *final(self) == *old(self),
            old(self).length() > 0 ==> r is Some && final(self).length() == old(self).length() - 1,
            old(self).length() > 0 ==> final(self).components().0.remaining() == advance(
                old(self).components().0.remaining(),
            ),
            old(self).length() > 0 ==> final(self).components().1.remaining() == advance(
                old(self).components().1.remaining(),
            ),
            old(self).length() > 0 ==> final(self).components().2.remaining() == advance(
                old(self).components().2.remaining(),
            ),
            old(self).length() > 0 ==> final(self).components().3.remaining() == advance(
                old(self).components().3.remaining(),
            ),
            r is None ==> final(self).size_estimate() == (0usize, Some(0usize)),
    {
        if self.length == 0 {
            return None;
        }
        let a = self.t.0.next().unwrap();
        let b = self.t.1.next().unwrap();
        let c = self.t.2.next().unwrap();
        let d = self.t.3.next().unwrap();
        self.length -= 1;
        proof {
            assert(final(self).remaining() =~= advance(old(self).remaining()));
        }
        Some((a, b, c, d))
    }

    fn size_hint(&self) -> (r: SizeEstimate)
        ensures
            exact(r, self.remaining().len()),
    {
        (self.length, Some(self.length))
    }
}

impl<
    A: TrustedIterator,
    B: TrustedIterator,
    C: TrustedIterator,
    D: TrustedIterator,
> ZipTrusted<(A, B, C, D)> {
    /// In every valid state the cached count is the number of tuples still
    /// to come, the least of the components' remaining lengths, and the
    /// estimate names it exactly: once nothing remains, it reads zero and zero.
    pub proof fn lemma_length(&self)
        requires
            self.wf(),
        ensures
            self.length() == self.remaining().len(),
            exact(self.size_estimate(), self.remaining().len()),
            self.remaining().len() == 0 ==> self.size_estimate() == (0usize, Some(0usize)),
            self.length() == self.components().shortest(),
            self.length() <= self.components().0.remaining().len(),
            self.length() <= self.components().1.remaining().len(),
            self.length() <= self.components().2.remaining().len(),
            self.length() <= self.components().3.remaining().len(),
            ({
                ||| self.length() == self.components().0.remaining().len()
                ||| self.length() == self.components().1.remaining().len()
                ||| self.length() == self.components().2.remaining().len()
                ||| self.length() == self.components().3.remaining().len()
            }),
    {
    }
}

impl<
    A: TrustedIterator,
    B: TrustedIterator,
    C: TrustedIterator,
    D: TrustedIterator,
    E: TrustedIterator,
> TrustedTuple for (A, B, C, D, E) {
    open spec fn wf(&self) -> bool {
        &&& self.0.wf()
        &&& self.1.wf()
        &&& self.2.wf()
        &&& self.3.wf()
        &&& self.4.wf()
    }

    open spec fn shortest(&self) -> nat {
        let n = self.0.remaining().len();
        let n = least(n, self.1.remaining().len());
        let n = least(n, self.2.remaining().len());
        let n = least(n, self.3.remaining().len());
        let n = least(n, self.4.remaining().len());
        n
    }

    fn exact_len(&self) -> (n: usize) {
        let len = usize::MAX;
        let (l, h) = self.0.size_hint();
        proof {
            self.0.lemma_exact_size();
            assert(h == Some(l));
        }
        let len = lesser(len, l);
        let (l, h) = self.1.size_hint();
        proof {
            self.1.lemma_exact_size();
            assert(h == Some(l));
        }
        let len = lesser(len, l);
        let (l, h) = self.2.size_hint();
        proof {
            self.2.lemma_exact_size();
            assert(h == Some(l));
        }
        let len = lesser(len, l);
        let (l, h) = self.3.size_hint();
        proof {
            self.3.lemma_exact_size();
            assert(h == Some(l));
        }
        let len = lesser(len, l);
        let (l, h) = self.4.size_hint();
        proof {
            self.4.lemma_exact_size();
            assert(h == Some(l));
        }
        lesser(len, l)
    }
}

impl<
    A: TrustedIterator,
    B: TrustedIterator,
    C: TrustedIterator,
    D: TrustedIterator,
    E: TrustedIterator,
> Sequence for ZipTrusted<(A, B, C, D, E)> {
    type Item = (A::Item, B::Item, C::Item, D::Item, E::Item);

    open spec fn wf(&self) -> bool {
        &&& self.components().wf()
        &&& self.length() == self.components().shortest()
    }

    open spec fn remaining(&self) -> Seq<Self::Item> {
        let a = self.components().0.remaining();
        let b = self.components().1.remaining();
        let c = self.components().2.remaining();
        let d = self.components().3.remaining();
        let e = self.components().4.remaining();
        let n = a.len();
        let n = least(n, b.len());
        let n = least(n, c.len());
        let n = least(n, d.len());
        let n = least(n, e.len());
        Seq::new(n, |at: int| (a[at], b[at], c[at], d[at], e[at]))
    }

    open spec fn size_estimate(&self) -> SizeEstimate {
        (self.length(), Some(self.length()))
    }

    /// With a count of zero, answers `None` and touches no component.
    /// Otherwise every component is known to hold an element: each gives up
    /// one, and the count goes down by one.
    fn next(&mut self) -> (r: Option<Self::Item>)
        ensures
            old(self).length() == 0 ==> r is None && *final(self) == *old(self),
            old(self).length() > 0 ==> r is Some && final(self).length() == old(self).length() - 1,
            old(self).length() > 0 ==> final(self).components().0.remaining() == advance(
                old(self).components().0.remaining(),
            ),
            old(self).length() > 0 ==> final(self).components().1.remaining() == advance(
                old(self).components().1.remaining(),
            ),
            old(self).length() > 0 ==> final(self).components().2.remaining() == advance(
                old(self).components().2.remaining(),
            ),
            old(self).length() > 0 ==> final(self).components().3.remaining() == advance(
                old(self).components().3.remaining(),
            ),
            old(self).length() > 0 ==> final(self).components().4.remaining() == advance(
                old(self).components().4.remaining(),
            ),
            r is None ==> final(self).size_estimate() == (0usize, Some(0usize)),
    {
        if self.length == 0 {
            return None;
        }
        let a = self.t.0.next().unwrap();
        let b = self.t.1.next().unwrap();
        let c = self.t.2.next().unwrap();
        let d = self.t.3.next().unwrap();
        let e = self.t.4.next().unwrap();
        self.length -= 1;
        proof {
            assert(final(self).remaining() =~= advance(old(self).remaining()));
        }
        Some((a, b, c, d, e))
    }

    fn size_hint(&self) -> (r: SizeEstimate)
        ensures
            exact(r, self.remaining().len()),
    {
        (self.length, Some(self.length))
    }
}

impl<
    A: TrustedIterator,
    B: TrustedIterator,
    C: TrustedIterator,
    D: TrustedIterator,
    E: TrustedIterator,
> ZipTrusted<(A, B, C, D, E)> {
    /// In every valid state the cached count is the number of tuples still
    /// to come, the least of the components' remaining lengths, and the
    /// estimate names it exactly: once nothing remains, it reads zero and zero.
    pub proof fn lemma_length(&self)
        requires
            self.wf(),
        ensures
            self.length() == self.remaining().len(),
            exact(self.size_estimate(), self.remaining().len()),
            self.remaining().len() == 0 ==> self.size_estimate() == (0usize, Some(0usize)),
            self.length() == self.components().shortest(),
            self.length() <= self.components().0.remaining().len(),
            self.length() <= self.components().1.remaining().len(),
            self.length() <= self.components().2.remaining().len(),
            self.length() <= self.components().3.remaining().len(),
            self.length() <= self.components().4.remaining().len(),
            ({
                ||| self.length() == self.components().0.remaining().len()
                ||| self.length() == self.components().1.remaining().len()
                ||| self.length() == self.components().2.remaining().len()
                ||| self.length() == self.components().3.remaining().len()
                ||| self.length() == self.components().4.remaining().len()
            }),
    {
    }
}

impl<
    A: TrustedIterator,
    B: TrustedIterator,
    C: TrustedIterator,
    D: TrustedIterator,
    E: TrustedIterator,
    F: TrustedIterator,
> TrustedTuple for (A, B, C, D, E, F) {
    open spec fn wf(&self) -> bool {
        &&& self.0.wf()
        &&& self.1.wf()
        &&& self.2.wf()
        &&& self.3.wf()
        &&& self.4.wf()
        &&& self.5.wf()
    }

    open spec fn shortest(&self) -> nat {
        let n = self.0.remaining().len();
        let n = least(n, self.1.remaining().len());
        let n = least(n, self.2.remaining().len());
        let n = least(n, self.3.remaining().len());
        let n = least(n, self.4.remaining().len());
        let n = least(n, self.5.remaining().len());
        n
    }

    fn exact_len(&self) -> (n: usize) {
        let len = usize::MAX;
        let (l, h) = self.0.size_hint();
        proof {
            self.0.lemma_exact_size();
            assert(h == Some(l));
        }
        let len = lesser(len, l);
        let (l, h) = self.1.size_hint();
        proof {
            self.1.lemma_exact_size();
            assert(h == Some(l));
        }
        let len = lesser(len, l);
        let (l, h) = self.2.size_hint();
        proof {
            self.2.lemma_exact_size();
            assert(h == Some(l));
        }
        let len = lesser(len, l);
        let (l, h) = self.3.size_hint();
        proof {
            self.3.lemma_exact_size();
            assert(h == Some(l));
        }
        let len = lesser(len, l);
        let (l, h) = self.4.size_hint();
        proof {
            self.4.lemma_exact_size();
            assert(h == Some(l));
        }
        let len = lesser(len, l);
        let (l, h) = self.5.size_hint();
        proof {
            self.5.lemma_exact_size();
            assert(h == Some(l));
        }
        lesser(len, l)
    }
}

impl<
    A: TrustedIterator,
    B: TrustedIterator,
    C: TrustedIterator,
    D: TrustedIterator,
    E: TrustedIterator,
    F: TrustedIterator,
> Sequence for ZipTrusted<(A, B, C, D, E, F)> {
    type Item = (A::Item, B::Item, C::Item, D::Item, E::Item, F::Item);

    open spec fn wf(&self) -> bool {
        &&& self.components().wf()
        &&& self.length() == self.components().shortest()
    }

    open spec fn remaining(&self) -> Seq<Self::Item> {
        let a = self.components().0.remaining();
        let b = self.components().1.remaining();
        let c = self.components().2.remaining();
        let d = self.components().3.remaining();
        let e = self.components().4.remaining();
        let f = self.components().5.remaining();
        let n = a.len();
        let n = least(n, b.len());
        let n = least(n, c.len());
        let n = least(n, d.len());
        let n = least(n, e.len());
        let n = least(n, f.len());
        Seq::new(n, |at: int| (a[at], b[at], c[at], d[at], e[at], f[at]))
    }

    open spec fn size_estimate(&self) -> SizeEstimate {
        (self.length(), Some(self.length()))
    }

    /// With a count of zero, answers `None` and touches no component.
    /// Otherwise every component is known to hold an element: each gives up
    /// one, and the count goes down by one.
    fn next(&mut self) -> (r: Option<Self::Item>)
        ensures
            old(self).length() == 0 ==> r is None && *final(self) == *old(self),
            old(self).length() > 0 ==> r is Some && final(self).length() == old(self).length() - 1,
            old(self).length() > 0 ==> final(self).components().0.remaining() == advance(
                old(self).components().0.remaining(),
            ),
            old(self).length() > 0 ==> final(self).components().1.remaining() == advance(
                old(self).components().1.remaining(),
            ),
            old(self).length() > 0 ==> final(self).components().2.remaining() == advance(
                old(self).components().2.remaining(),
            ),
            old(self).length() > 0 ==> final(self).components().3.remaining() == advance(
                old(self).components().3.remaining(),
            ),
            old(self).length() > 0 ==> final(self).components().4.remaining() == advance(
                old(self).components().4.remaining(),
            ),
            old(self).length() > 0 ==> final(self).components().5.remaining() == advance(
                old(self).components().5.remaining(),
            ),
            r is None ==> final(self).size_estimate() == (0usize, Some(0usize)),
    {
        if self.length == 0 {
            return None;
        }
        let a = self.t.0.next().unwrap();
        let b = self.t.1.next().unwrap();
        let c = self.t.2.next().unwrap();
        let d = self.t.3.next().unwrap();
        let e = self.t.4.next().unwrap();
        let f = self.t.5.next().unwrap();
        self.length -= 1;
        proof {
            assert(final(self).remaining() =~= advance(old(self).remaining()));
        }
        Some((a, b, c, d, e, f))
    }

    fn size_hint(&self) -> (r: SizeEstimate)
        ensures
            exact(r, self.remaining().len()),
    {
        (self.length, Some(self.length))
    }
}

impl<
    A: TrustedIterator,
    B: TrustedIterator,
    C: TrustedIterator,
    D: TrustedIterator,
    E: TrustedIterator,
    F: TrustedIterator,
> ZipTrusted<(A, B, C, D, E, F)> {
    /// In every valid state the cached count is the number of tuples still
    /// to come, the least of the components' remaining lengths, and the
    /// estimate names it exactly: once nothing remains, it reads zero and zero.
    pub proof fn lemma_length(&self)
        requires
            self.wf(),
        ensures
            self.length() == self.remaining().len(),
            exact(self.size_estimate(), self.remaining().len()),
            self.remaining().len() == 0 ==> self.size_estimate() == (0usize, Some(0usize)),
            self.length() == self.components().shortest(),
            self.length() <= self.components().0.remaining().len(),
            self.length() <= self.components().1.remaining().len(),
            self.length() <= self.components().2.remaining().len(),
            self.length() <= self.components().3.remaining().len(),
            self.length() <= self.components().4.remaining().len(),
            self.length() <= self.components().5.remaining().len(),
            ({
                ||| self.length() == self.components().0.remaining().len()
                ||| self.length() == self.components().1.remaining().len()
                ||| self.length() == self.components().2.remaining().len()
                ||| self.length() == self.components().3.remaining().len()
                ||| self.length() == self.components().4.remaining().len()
                ||| self.length() == self.components().5.remaining().len()
            }),
    {
    }
}

impl<
    A: TrustedIterator,
    B: TrustedIterator,
    C: TrustedIterator,
    D: TrustedIterator,
    E: TrustedIterator,
    F: TrustedIterator,
    G: TrustedIterator,
> TrustedTuple for (A, B, C, D, E, F, G) {
    open spec fn wf(&self) -> bool {
        &&& self.0.wf()
        &&& self.1.wf()
        &&& self.2.wf()
        &&& self.3.wf()
        &&& self.4.wf()
        &&& self.5.wf()
        &&& self.6.wf()
    }

    open spec fn shortest(&self) -> nat {
        let n = self.0.remaining().len();
        let n = least(n, self.1.remaining().len());
        let n = least(n, self.2.remaining().len());
        let n = least(n, self.3.remaining().len());
        let n = least(n, self.4.remaining().len());
        let n = least(n, self.5.remaining().len());
        let n = least(n, self.6.remaining().len());
        n
    }

    fn exact_len(&self) -> (n: usize) {
        let len = usize::MAX;
        let (l, h) = self.0.size_hint();
        proof {
            self.0.lemma_exact_size();
            assert(h == Some(l));
        }
        let len = lesser(len, l);
        let (l, h) = self.1.size_hint();
        proof {
            self.1.lemma_exact_size();
            assert(h == Some(l));
        }
        let len = lesser(len, l);
        let (l, h) = self.2.size_hint();
        proof {
            self.2.lemma_exact_size();
            assert(h == Some(l));
        }
        let len = lesser(len, l);
        let (l, h) = self.3.size_hint();
        proof {
            self.3.lemma_exact_size();
            assert(h == Some(l));
        }
        let len = lesser(len, l);
        let (l, h) = self.4.size_hint();
        proof {
            self.4.lemma_exact_size();
            assert(h == Some(l));
        }
        let len = lesser(len, l);
        let (l, h) = self.5.size_hint();
        proof {
            self.5.lemma_exact_size();
            assert(h == Some(l));
        }
        let len = lesser(len, l);
        let (l, h) = self.6.size_hint();
        proof {
            self.6.lemma_exact_size();
            assert(h == Some(l));
        }
        lesser(len, l)
    }
}

impl<
    A: TrustedIterator,
    B: TrustedIterator,
    C: TrustedIterator,
    D: TrustedIterator,
    E: TrustedIterator,
    F: TrustedIterator,
    G: TrustedIterator,
> Sequence for ZipTrusted<(A, B, C, D, E, F, G)> {
    type Item = (A::Item, B::Item, C::Item, D::Item, E::Item, F::Item, G::Item);

    open spec fn wf(&self) -> bool {
        &&& self.components().wf()
        &&& self.length() == self.components().shortest()
    }

    open spec fn remaining(&self) -> Seq<Self::Item> {
        let a = self.components().0.remaining();
        let b = self.components().1.remaining();
        let c = self.components().2.remaining();
        let d = self.components().3.remaining();
        let e = self.components().4.remaining();
        let f = self.components().5.remaining();
        let g = self.components().6.remaining();
        let n = a.len();
        let n = least(n, b.len());
        let n = least(n, c.len());
        let n = least(n, d.len());
        let n = least(n, e.len());
        let n = least(n, f.len());
        let n = least(n, g.len());
        Seq::new(n, |at: int| (a[at], b[at], c[at], d[at], e[at], f[at], g[at]))
    }

    open spec fn size_estimate(&self) -> SizeEstimate {
        (self.length(), Some(self.length()))
    }

    /// With a count of zero, answers `None` and touches no component.
    /// Otherwise every component is known to hold an element: each gives up
    /// one, and the count goes down by one.
    fn next(&mut self) -> (r: Option<Self::Item>)
        ensures
            old(self).length() == 0 ==> r is None && *final(self) == *old(self),
            old(self).length() > 0 ==> r is Some && final(self).length() == old(self).length() - 1,
            old(self).length() > 0 ==> final(self).components().0.remaining() == advance(
                old(self).components().0.remaining(),
            ),
            old(self).length() > 0 ==> final(self).components().1.remaining() == advance(
                old(self).components().1.remaining(),
            ),
            old(self).length() > 0 ==> final(self).components().2.remaining() == advance(
                old(self).components().2.remaining(),
            ),
            old(self).length() > 0 ==> final(self).components().3.remaining() == advance(
                old(self).components().3.remaining(),
            ),
            old(self).length() > 0 ==> final(self).components().4.remaining() == advance(
                old(self).components().4.remaining(),
            ),
            old(self).length() > 0 ==> final(self).components().5.remaining() == advance(
                old(self).components().5.remaining(),
            ),
            old(self).length() > 0 ==> final(self).components().6.remaining() == advance(
                old(self).components().6.remaining(),
            ),
            r is None ==> final(self).size_estimate() == (0usize, Some(0usize)),
    {
        if self.length == 0 {
            return None;
        }
        let a = self.t.0.next().unwrap();
        let b = self.t.1.next().unwrap();
        let c = self.t.2.next().unwrap();
        let d = self.t.3.next().unwrap();
        let e = self.t.4.next().unwrap();
        let f = self.t.5.next().unwrap();
        let g = self.t.6.next().unwrap();
        self.length -= 1;
        proof {
            assert(final(self).remaining() =~= advance(old(self).remaining()));
        }
        Some((a, b, c, d, e, f, g))
    }

    fn size_hint(&self) -> (r: SizeEstimate)
        ensures
            exact(r, self.remaining().len()),
    {
        (self.length, Some(self.length))
    }
}

impl<
    A: TrustedIterator,
    B: TrustedIterator,
    C: TrustedIterator,
    D: TrustedIterator,
    E: TrustedIterator,
    F: TrustedIterator,
    G: TrustedIterator,
> ZipTrusted<(A, B, C, D, E, F, G)> {
    /// In every valid state the cached count is the number of tuples still
    /// to come, the least of the components' remaining lengths, and the
    /// estimate names it exactly: once nothing remains, it reads zero and zero.
    pub proof fn lemma_length(&self)
        requires
            self.wf(),
        ensures
            self.length() == self.remaining().len(),
            exact(self.size_estimate(), self.remaining().len()),
            self.remaining().len() == 0 ==> self.size_estimate() == (0usize, Some(0usize)),
            self.length() == self.components().shortest(),
            self.length() <= self.components().0.remaining().len(),
            self.length() <= self.components().1.remaining().len(),
            self.length() <= self.components().2.remaining().len(),
            self.length() <= self.components().3.remaining().len(),
            self.length() <= self.components().4.remaining().len(),
            self.length() <= self.components().5.remaining().len(),
            self.length() <= self.components().6.remaining().len(),
            ({
                ||| self.length() == self.components().0.remaining().len()
                ||| self.length() == self.components().1.remaining().len()
                ||| self.length() == self.components().2.remaining().len()
                ||| self.length() == self.components().3.remaining().len()
                ||| self.length() == self.components().4.remaining().len()
                ||| self.length() == self.components().5.remaining().len()
                ||| self.length() == self.components().6.remaining().len()
            }),
    {
    }
}

impl<
    A: TrustedIterator,
    B: TrustedIterator,
    C: TrustedIterator,
    D: TrustedIterator,
    E: TrustedIterator,
    F: TrustedIterator,
    G: TrustedIterator,
    H: TrustedIterator,
> TrustedTuple for (A, B, C, D, E, F, G, H) {
    open spec fn wf(&self) -> bool {
        &&& self.0.wf()
        &&& self.1.wf()
        &&& self.2.wf()
        &&& self.3.wf()
        &&& self.4.wf()
        &&& self.5.wf()
        &&& self.6.wf()
        &&& self.7.wf()
    }

    open spec fn shortest(&self) -> nat {
        let n = self.0.remaining().len();
        let n = least(n, self.1.remaining().len());
        let n = least(n, self.2.remaining().len());
        let n = least(n, self.3.remaining().len());
        let n = least(n, self.4.remaining().len());
        let n = least(n, self.5.remaining().len());
        let n = least(n, self.6.remaining().len());
        let n = least(n, self.7.remaining().len());
        n
    }

    fn exact_len(&self) -> (n: usize) {
        let len = usize::MAX;
        let (l, h) = self.0.size_hint();
        proof {
            self.0.lemma_exact_size();
            assert(h == Some(l));
        }
        let len = lesser(len, l);
        let (l, h) = self.1.size_hint();
        proof {
            self.1.lemma_exact_size();
            assert(h == Some(l));
        }
        let len = lesser(len, l);
        let (l, h) = self.2.size_hint();
        proof {
            self.2.lemma_exact_size();
            assert(h == Some(l));
        }
        let len = lesser(len, l);
        let (l, h) = self.3.size_hint();
        proof {
            self.3.lemma_exact_size();
            assert(h == Some(l));
        }
        let len = lesser(len, l);
        let (l, h) = self.4.size_hint();
        proof {
            self.4.lemma_exact_size();
            assert(h == Some(l));
        }
        let len = lesser(len, l);
        let (l, h) = self.5.size_hint();
        proof {
            self.5.lemma_exact_size();
            assert(h == Some(l));
        }
        let len = lesser(len, l);
        let (l, h) = self.6.size_hint();
        proof {
            self.6.lemma_exact_size();
            assert(h == Some(l));
        }
        let len = lesser(len, l);
        let (l, h) = self.7.size_hint();
        proof {
            self.7.lemma_exact_size();
            assert(h == Some(l));
        }
        lesser(len, l)
    }
}

impl<
    A: TrustedIterator,
    B: TrustedIterator,
    C: TrustedIterator,
    D: TrustedIterator,
    E: TrustedIterator,
    F: TrustedIterator,
    G: TrustedIterator,
    H: TrustedIterator,
> Sequence for ZipTrusted<(A, B, C, D, E, F, G, H)> {
    type Item = (A::Item, B::Item, C::Item, D::Item, E::Item, F::Item, G::Item, H::Item);

    open spec fn wf(&self) -> bool {
        &&& self.components().wf()
        &&& self.length() == self.components().shortest()
    }

    open spec fn remaining(&self) -> Seq<Self::Item> {
        let a = self.components().0.remaining();
        let b = self.components().1.remaining();
        let c = self.components().2.remaining();
        let d = self.components().3.remaining();
        let e = self.components().4.remaining();
        let f = self.components().5.remaining();
        let g = self.components().6.remaining();
        let h = self.components().7.remaining();
        let n = a.len();
        let n = least(n, b.len());
        let n = least(n, c.len());
        let n = least(n, d.len());
        let n = least(n, e.len());
        let n = least(n, f.len());
        let n = least(n, g.len());
        let n = least(n, h.len());
        Seq::new(n, |at: int| (a[at], b[at], c[at], d[at], e[at], f[at], g[at], h[at]))
    }

    open spec fn size_estimate(&self) -> SizeEstimate {
        (self.length(), Some(self.length()))
    }

    /// With a count of zero, answers `None` and touches no component.
    /// Otherwise every component is known to hold an element: each gives up
    /// one, and the count goes down by one.
    fn next(&mut self) -> (r: Option<Self::Item>)
        ensures
            old(self).length() == 0 ==> r is None && *final(self) == *old(self),
            old(self).length() > 0 ==> r is Some && final(self).length() == old(self).length() - 1,
            old(self).length() > 0 ==> final(self).components().0.remaining() == advance(
                old(self).components().0.remaining(),
            ),
            old(self).length() > 0 ==> final(self).components().1.remaining() == advance(
                old(self).components().1.remaining(),
            ),
            old(self).length() > 0 ==> final(self).components().2.remaining() == advance(
                old(self).components().2.remaining(),
            ),
            old(self).length() > 0 ==> final(self).components().3.remaining() == advance(
                old(self).components().3.remaining(),
            ),
            old(self).length() > 0 ==> final(self).components().4.remaining() == advance(
                old(self).components().4.remaining(),
            ),
            old(self).length() > 0 ==> final(self).components().5.remaining() == advance(
                old(self).components().5.remaining(),
            ),
            old(self).length() > 0 ==> final(self).components().6.remaining() == advance(
                old(self).components().6.remaining(),
            ),
            old(self).length() > 0 ==> final(self).components().7.remaining() == advance(
                old(self).components().7.remaining(),
            ),
            r is None ==> final(self).size_estimate() == (0usize, Some(0usize)),
    {
        if self.length == 0 {
            return None;
        }
        let a = self.t.0.next().unwrap();
        let b = self.t.1.next().unwrap();
        let c = self.t.2.next().unwrap();
        let d = self.t.3.next().unwrap();
        let e = self.t.4.next().unwrap();
        let f = self.t.5.next().unwrap();
        let g = self.t.6.next().unwrap();
        let h = self.t.7.next().unwrap();
        self.length -= 1;
        proof {
            assert(final(self).remaining() =~= advance(old(self).remaining()));
        }
        Some((a, b, c, d, e, f, g, h))
    }

    fn size_hint(&self) -> (r: SizeEstimate)
        ensures
            exact(r, self.remaining().len()),
    {
        (self.length, Some(self.length))
    }
}

impl<
    A: TrustedIterator,
    B: TrustedIterator,
    C: TrustedIterator,
    D: TrustedIterator,
    E: TrustedIterator,
    F: TrustedIterator,
    G: TrustedIterator,
    H: TrustedIterator,
> ZipTrusted<(A, B, C, D, E, F, G, H)> {
    /// In every valid state the cached count is the number of tuples still
    /// to come, the least of the components' remaining lengths, and the
    /// estimate names it exactly: once nothing remains, it reads zero and zero.
    pub proof fn lemma_length(&self)
        requires
            self.wf(),
        ensures
            self.length() == self.remaining().len(),
            exact(self.size_estimate(), self.remaining().len()),
            self.remaining().len() == 0 ==> self.size_estimate() == (0usize, Some(0usize)),
            self.length() == self.components().shortest(),
            self.length() <= self.components().0.remaining().len(),
            self.length() <= self.components().1.remaining().len(),
            self.length() <= self.components().2.remaining().len(),
            self.length() <= self.components().3.remaining().len(),
            self.length() <= self.components().4.remaining().len(),
            self.length() <= self.components().5.remaining().len(),
            self.length() <= self.components().6.remaining().len(),
            self.length() <= self.components().7.remaining().len(),
            ({
                ||| self.length() == self.components().0.remaining().len()
                ||| self.length() == self.components().1.remaining().len()
                ||| self.length() == self.components().2.remaining().len()
                ||| self.length() == self.components().3.remaining().len()
                ||| self.length() == self.components().4.remaining().len()
                ||| self.length() == self.components().5.remaining().len()
                ||| self.length() == self.components().6.remaining().len()
                ||| self.length() == self.components().7.remaining().len()
            }),
    {
    }
}

impl<
    A: TrustedIterator,
    B: TrustedIterator,
    C: TrustedIterator,
    D: TrustedIterator,
    E: TrustedIterator,
    F: TrustedIterator,
    G: TrustedIterator,
    H: TrustedIterator,
    I: TrustedIterator,
> TrustedTuple for (A, B, C, D, E, F, G, H, I) {
    open spec fn wf(&self) -> bool {
        &&& self.0.wf()
        &&& self.1.wf()
        &&& self.2.wf()
        &&& self.3.wf()
        &&& self.4.wf()
        &&& self.5.wf()
        &&& self.6.wf()
        &&& self.7.wf()
        &&& self.8.wf()
    }

    open spec fn shortest(&self) -> nat {
        let n = self.0.remaining().len();
        let n = least(n, self.1.remaining().len());
        let n = least(n, self.2.remaining().len());
        let n = least(n, self.3.remaining().len());
        let n = least(n, self.4.remaining().len());
        let n = least(n, self.5.remaining().len());
        let n = least(n, self.6.remaining().len());
        let n = least(n, self.7.remaining().len());
        let n = least(n, self.8.remaining().len());
        n
    }

    fn exact_len(&self) -> (n: usize) {
        let len = usize::MAX;
        let (l, h) = self.0.size_hint();
        proof {
            self.0.lemma_exact_size();
            assert(h == Some(l));
        }
        let len = lesser(len, l);
        let (l, h) = self.1.size_hint();
        proof {
            self.1.lemma_exact_size();
            assert(h == Some(l));
        }
        let len = lesser(len, l);
        let (l, h) = self.2.size_hint();
        proof {
            self.2.lemma_exact_size();
            assert(h == Some(l));
        }
        let len = lesser(len, l);
        let (l, h) = self.3.size_hint();
        proof {
            self.3.lemma_exact_size();
            assert(h == Some(l));
        }
        let len = lesser(len, l);
        let (l, h) = self.4.size_hint();
        proof {
            self.4.lemma_exact_size();
            assert(h == Some(l));
        }
        let len = lesser(len, l);
        let (l, h) = self.5.size_hint();
        proof {
            self.5.lemma_exact_size();
            assert(h == Some(l));
        }
        let len = lesser(len, l);
        let (l, h) = self.6.size_hint();
        proof {
            self.6.lemma_exact_size();
            assert(h == Some(l));
        }
        let len = lesser(len, l);
        let (l, h) = self.7.size_hint();
        proof {
            self.7.lemma_exact_size();
            assert(h == Some(l));
        }
        let len = lesser(len, l);
        let (l, h) = self.8.size_hint();
        proof {
            self.8.lemma_exact_size();
            assert(h == Some(l));
        }
        lesser(len, l)
    }
}

impl<
    A: TrustedIterator,
    B: TrustedIterator,
    C: TrustedIterator,
    D: TrustedIterator,
    E: TrustedIterator,
    F: TrustedIterator,
    G: TrustedIterator,
    H: TrustedIterator,
    I: TrustedIterator,
> Sequence for ZipTrusted<(A, B, C, D, E, F, G, H, I)> {
    type Item = (A::Item, B::Item, C::Item, D::Item, E::Item, F::Item, G::Item, H::Item, I::Item);

    open spec fn wf(&self) -> bool {
        &&& self.components().wf()
        &&& self.length() == self.components().shortest()
    }

    open spec fn remaining(&self) -> Seq<Self::Item> {
        let a = self.components().0.remaining();
        let b = self.components().1.remaining();
        let c = self.components().2.remaining();
        let d = self.components().3.remaining();
        let e = self.components().4.remaining();
        let f = self.components().5.remaining();
        let g = self.components().6.remaining();
        let h = self.components().7.remaining();
        let i = self.components().8.remaining();
        let n = a.len();
        let n = least(n, b.len());
        let n = least(n, c.len());
        let n = least(n, d.len());
        let n = least(n, e.len());
        let n = least(n, f.len());
        let n = least(n, g.len());
        let n = least(n, h.len());
        let n = least(n, i.len());
        Seq::new(n, |at: int| (a[at], b[at], c[at], d[at], e[at], f[at], g[at], h[at], i[at]))
    }

    open spec fn size_estimate(&self) -> SizeEstimate {
        (self.length(), Some(self.length()))
    }

    /// With a count of zero, answers `None` and touches no component.
    /// Otherwise every component is known to hold an element: each gives up
    /// one, and the count goes down by one.
    fn next(&mut self) -> (r: Option<Self::Item>)
        ensures
            old(self).length() == 0 ==> r is None && *final(self) == *old(self),
            old(self).length() > 0 ==> r is Some && final(self).length() == old(self).length() - 1,
            old(self).length() > 0 ==> final(self).components().0.remaining() == advance(
                old(self).components().0.remaining(),
            ),
            old(self).length() > 0 ==> final(self).components().1.remaining() == advance(
                old(self).components().1.remaining(),
            ),
            old(self).length() > 0 ==> final(self).components().2.remaining() == advance(
                old(self).components().2.remaining(),
            ),
            old(self).length() > 0 ==> final(self).components().3.remaining() == advance(
                old(self).components().3.remaining(),
            ),
            old(self).length() > 0 ==> final(self).components().4.remaining() == advance(
                old(self).components().4.remaining(),
            ),
            old(self).length() > 0 ==> final(self).components().5.remaining() == advance(
                old(self).components().5.remaining(),
            ),
            old(self).length() > 0 ==> final(self).components().6.remaining() == advance(
                old(self).components().6.remaining(),
            ),
            old(self).length() > 0 ==> final(self).components().7.remaining() == advance(
                old(self).components().7.remaining(),
            ),
            old(self).length() > 0 ==> final(self).components().8.remaining() == advance(
                old(self).components().8.remaining(),
            ),
            r is None ==> final(self).size_estimate() == (0usize, Some(0usize)),
    {
        if self.length == 0 {
            return None;
        }
        let a = self.t.0.next().unwrap();
        let b = self.t.1.next().unwrap();
        let c = self.t.2.next().unwrap();
        let d = self.t.3.next().unwrap();
        let e = self.t.4.next().unwrap();
        let f = self.t.5.next().unwrap();
        let g = self.t.6.next().unwrap();
        let h = self.t.7.next().unwrap();
        let i = self.t.8.next().unwrap();
        self.length -= 1;
        proof {
            assert(final(self).remaining() =~= advance(old(self).remaining()));
        }
        Some((a, b, c, d, e, f, g, h, i))
    }

    fn size_hint(&self) -> (r: SizeEstimate)
        ensures
            exact(r, self.remaining().len()),
    {
        (self.length, Some(self.length))
    }
}

impl<
    A: TrustedIterator,
    B: TrustedIterator,
    C: TrustedIterator,
    D: TrustedIterator,
    E: TrustedIterator,
    F: TrustedIterator,
    G: TrustedIterator,
    H: TrustedIterator,
    I: TrustedIterator,
> ZipTrusted<(A, B, C, D, E, F, G, H, I)> {
    /// In every valid state the cached count is the number of tuples still
    /// to come, the least of the components' remaining lengths, and the
    /// estimate names it exactly: once nothing remains, it reads zero and zero.
    pub proof fn lemma_length(&self)
        requires
            self.wf(),
        ensures
            self.length() == self.remaining().len(),
            exact(self.size_estimate(), self.remaining().len()),
            self.remaining().len() == 0 ==> self.size_estimate() == (0usize, Some(0usize)),
            self.length() == self.components().shortest(),
            self.length() <= self.components().0.remaining().len(),
            self.length() <= self.components().1.remaining().len(),
            self.length() <= self.components().2.remaining().len(),
            self.length() <= self.components().3.remaining().len(),
            self.length() <= self.components().4.remaining().len(),
            self.length() <= self.components().5.remaining().len(),
            self.length() <= self.components().6.remaining().len(),
            self.length() <= self.components().7.remaining().len(),
            self.length() <= self.components().8.remaining().len(),
            ({
                ||| self.length() == self.components().0.remaining().len()
                ||| self.length() == self.components().1.remaining().len()
                ||| self.length() == self.components().2.remaining().len()
                ||| self.length() == self.components().3.remaining().len()
                ||| self.length() == self.components().4.remaining().len()
                ||| self.length() == self.components().5.remaining().len()
                ||| self.length() == self.components().6.remaining().len()
                ||| self.length() == self.components().7.remaining().len()
                ||| self.length() == self.components().8.remaining().len()
            }),
    {
    }
}
} // verus!

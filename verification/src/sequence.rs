//! The protocol every sequence follows, and the exact-size capability.

use vstd::prelude::*;

verus! {

/// An advisory bound on how many elements remain: a lower bound and, where one
/// is known, an upper bound.
pub type SizeEstimate = (usize, Option<usize>);

/// The smaller of two counts.
pub open spec fn least(a: nat, b: nat) -> nat {
    if a <= b {
        a
    } else {
        b
    }
}

/// A sequence with its first element removed; an empty sequence stays empty.
pub open spec fn advance<T>(s: Seq<T>) -> Seq<T> {
    if s.len() > 0 {
        s.drop_first()
    } else {
        s
    }
}

/// A sequence with its last element removed; an empty sequence stays empty.
pub open spec fn retreat<T>(s: Seq<T>) -> Seq<T> {
    if s.len() > 0 {
        s.drop_last()
    } else {
        s
    }
}

/// Two estimates combined: the smaller lower bound, and the smaller upper
/// bound where both sides report one, otherwise none.
pub open spec fn meet(a: SizeEstimate, b: SizeEstimate) -> SizeEstimate {
    (
        if a.0 <= b.0 {
            a.0
        } else {
            b.0
        },
        match (a.1, b.1) {
            (Some(x), Some(y)) => Some(if x <= y {
                x
            } else {
                y
            }),
            _ => None,
        },
    )
}

/// Whether an estimate is a correct bound on a count.
pub open spec fn bounds(e: SizeEstimate, n: nat) -> bool {
    &&& e.0 <= n
    &&& e.1 matches Some(u) ==> n <= u
}

/// Whether an estimate names a count exactly.
pub open spec fn exact(e: SizeEstimate, n: nat) -> bool {
    &&& e.0 == n
    &&& e.1 == Some(e.0)
}

/// The smaller of two machine counts.
pub fn lesser(a: usize, b: usize) -> (r: usize)
    ensures
        r == least(a as nat, b as nat),
{
    if a <= b {
        a
    } else {
        b
    }
}

/// Combines two estimates as [`meet`] says.
pub fn combine(a: SizeEstimate, b: SizeEstimate) -> (r: SizeEstimate)
    ensures
        r == meet(a, b),
{
    let low = lesser(a.0, b.0);
    let high = match (a.1, b.1) {
        (Some(x), Some(y)) => Some(lesser(x, y)),
        _ => None,
    };
    (low, high)
}

/// A correct bound on each of two counts, combined, bounds the smaller count.
pub proof fn lemma_meet_bounds(a: SizeEstimate, m: nat, b: SizeEstimate, n: nat)
    requires
        bounds(a, m),
        bounds(b, n),
    ensures
        bounds(meet(a, b), least(m, n)),
{
}

/// One-at-a-time forward traversal with an exhaustion signal.
///
/// The model of a sequence is `remaining()`: the elements still to come, in
/// the order in which `next` hands them out. Once it is empty, `next` keeps
/// answering `None`.
pub trait Sequence {
    type Item;

    /// The validity of the handle's internal state.
    spec fn wf(&self) -> bool;

    /// The elements still to come.
    spec fn remaining(&self) -> Seq<Self::Item>;

    /// What `size_hint` reports in this state.
    spec fn size_estimate(&self) -> SizeEstimate;

    /// Hands out the first remaining element, or `None` when none remains.
    fn next(&mut self) -> (r: Option<Self::Item>)
        requires
            old(self).wf(),
        ensures
            final(self).wf(),
            final(self).remaining() == advance(old(self).remaining()),
            old(self).remaining().len() > 0 ==> r == Some(old(self).remaining()[0]),
            old(self).remaining().len() == 0 ==> r is None,
    ;

    /// A cheap estimate of how many elements remain. It is a function of the
    /// state alone, and it never promises more than there is: the lower bound
    /// is at most, the upper bound at least, the true count.
    fn size_hint(&self) -> (r: SizeEstimate)
        requires
            self.wf(),
        ensures
            r == self.size_estimate(),
            bounds(r, self.remaining().len()),
    ;
}

/// A sequence that can also be traversed from its far end.
pub trait DoubleEnded: Sequence {
    /// Hands out the last remaining element, or `None` when none remains.
    fn next_back(&mut self) -> (r: Option<Self::Item>)
        requires
            old(self).wf(),
        ensures
            final(self).wf(),
            final(self).remaining() == retreat(old(self).remaining()),
            old(self).remaining().len() > 0 ==> r == Some(old(self).remaining().last()),
            old(self).remaining().len() == 0 ==> r is None,
    ;
}

/// Asking twice without stepping in between gives the same answer: whatever
/// `size_hint` reports of a state is that state's one estimate, and it is a
/// correct bound on what remains.
pub proof fn lemma_estimate_stable<S: Sequence>(s: &S, first: SizeEstimate, second: SizeEstimate)
    requires
        first == s.size_estimate(),
        second == s.size_estimate(),
    ensures
        first == second,
{
}

/// Steps a sequence until it is exhausted and hands back, in order, every
/// element that it yielded on the way.
pub fn drain<S: Sequence>(s: &mut S) -> (out: Vec<S::Item>)
    requires
        old(s).wf(),
    ensures
        final(s).wf(),
        final(s).remaining().len() == 0,
        out@ == old(s).remaining(),
{
    let mut out: Vec<S::Item> = Vec::new();
    loop
        invariant
            s.wf(),
            out@ + s.remaining() == old(s).remaining(),
        ensures
            s.remaining().len() == 0,
        decreases s.remaining().len(),
    {
        let ghost done = out@;
        let ghost rest = s.remaining();
        match s.next() {
            Some(elt) => {
                out.push(elt);
                proof {
                    assert(out@ + s.remaining() =~= done + rest);
                }
            },
            None => {
                break ;
            },
        }
    }
    proof {
        assert(out@ =~= out@ + s.remaining());
    }
    out
}

/// The exact-size capability: in every valid state the estimate's two bounds
/// are equal to each other and to the number of elements that remain.
///
/// The capability has no operation of its own. Granting it to a type means
/// proving `lemma_exact_size` for every valid state of that type.
pub trait TrustedIterator: Sequence {
    proof fn lemma_exact_size(&self)
        requires
            self.wf(),
        ensures
            exact(self.size_estimate(), self.remaining().len()),
    ;
}

} // verus!

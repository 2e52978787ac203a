//! Traversal of integer ranges.

use vstd::prelude::*;
use std::ops::Range;
use crate::sequence::{advance, retreat, DoubleEnded, Sequence, SizeEstimate, TrustedIterator};

verus! {

/// How many integers lie in the half-open range from `start` to `end`.
pub open spec fn span(start: int, end: int) -> nat {
    if start < end {
        (end - start) as nat
    } else {
        0
    }
}

impl Sequence for Range<usize> {
    type Item = usize;

    open spec fn wf(&self) -> bool {
        true
    }

    open spec fn remaining(&self) -> Seq<usize> {
        Seq::new(span(self.start as int, self.end as int), |at: int| (self.start + at) as usize)
    }

    open spec fn size_estimate(&self) -> SizeEstimate {
        let n = span(self.start as int, self.end as int) as usize;
        (n, Some(n))
    }

    fn next(&mut self) -> (r: Option<usize>) {
        if self.start < self.end {
            let elt = self.start;
            self.start = elt + 1;
            proof {
                assert(final(self).remaining() =~= advance(old(self).remaining()));
            }
            Some(elt)
        } else {
            None
        }
    }

    fn size_hint(&self) -> (r: SizeEstimate) {
        let n = if self.start < self.end {
            self.end - self.start
        } else {
            0
        };
        (n, Some(n))
    }
}

impl DoubleEnded for Range<usize> {
    fn next_back(&mut self) -> (r: Option<usize>) {
        if self.start < self.end {
            self.end = self.end - 1;
            proof {
                assert(final(self).remaining() =~= retreat(old(self).remaining()));
            }
            Some(self.end)
        } else {
            None
        }
    }
}

impl TrustedIterator for Range<usize> {
    proof fn lemma_exact_size(&self) {
    }
}

impl Sequence for Range<u32> {
    type Item = u32;

    open spec fn wf(&self) -> bool {
        true
    }

    open spec fn remaining(&self) -> Seq<u32> {
        Seq::new(span(self.start as int, self.end as int), |at: int| (self.start + at) as u32)
    }

    open spec fn size_estimate(&self) -> SizeEstimate {
        let n = span(self.start as int, self.end as int) as usize;
        (n, Some(n))
    }

    fn next(&mut self) -> (r: Option<u32>) {
        if self.start < self.end {
            let elt = self.start;
            self.start = elt + 1;
            proof {
                assert(final(self).remaining() =~= advance(old(self).remaining()));
            }
            Some(elt)
        } else {
            None
        }
    }

    fn size_hint(&self) -> (r: SizeEstimate) {
        let n = if self.start < self.end {
            (self.end - self.start) as usize
        } else {
            0
        };
        (n, Some(n))
    }
}

impl DoubleEnded for Range<u32> {
    fn next_back(&mut self) -> (r: Option<u32>) {
        if self.start < self.end {
            self.end = self.end - 1;
            proof {
                assert(final(self).remaining() =~= retreat(old(self).remaining()));
            }
            Some(self.end)
        } else {
            None
        }
    }
}

impl TrustedIterator for Range<u32> {
    proof fn lemma_exact_size(&self) {
    }
}

impl Sequence for Range<i32> {
    type Item = i32;

    open spec fn wf(&self) -> bool {
        true
    }

    open spec fn remaining(&self) -> Seq<i32> {
        Seq::new(span(self.start as int, self.end as int), |at: int| (self.start + at) as i32)
    }

    open spec fn size_estimate(&self) -> SizeEstimate {
        let n = span(self.start as int, self.end as int) as usize;
        (n, Some(n))
    }

    fn next(&mut self) -> (r: Option<i32>) {
        if self.start < self.end {
            let elt = self.start;
            self.start = elt + 1;
            proof {
                assert(final(self).remaining() =~= advance(old(self).remaining()));
            }
            Some(elt)
        } else {
            None
        }
    }

    fn size_hint(&self) -> (r: SizeEstimate) {
        let n = if self.start < self.end {
            (self.end as i64 - self.start as i64) as usize
        } else {
            0
        };
        (n, Some(n))
    }
}

impl DoubleEnded for Range<i32> {
    fn next_back(&mut self) -> (r: Option<i32>) {
        if self.start < self.end {
            self.end = self.end - 1;
            proof {
                assert(final(self).remaining() =~= retreat(old(self).remaining()));
            }
            Some(self.end)
        } else {
            None
        }
    }
}

impl TrustedIterator for Range<i32> {
    proof fn lemma_exact_size(&self) {
    }
}

impl Sequence for Range<u16> {
    type Item = u16;

    open spec fn wf(&self) -> bool {
        true
    }

    open spec fn remaining(&self) -> Seq<u16> {
        Seq::new(span(self.start as int, self.end as int), |at: int| (self.start + at) as u16)
    }

    open spec fn size_estimate(&self) -> SizeEstimate {
        let n = span(self.start as int, self.end as int) as usize;
        (n, Some(n))
    }

    fn next(&mut self) -> (r: Option<u16>) {
        if self.start < self.end {
            let elt = self.start;
            self.start = elt + 1;
            proof {
                assert(final(self).remaining() =~= advance(old(self).remaining()));
            }
            Some(elt)
        } else {
            None
        }
    }

    fn size_hint(&self) -> (r: SizeEstimate) {
        let n = if self.start < self.end {
            (self.end - self.start) as usize
        } else {
            0
        };
        (n, Some(n))
    }
}

impl DoubleEnded for Range<u16> {
    fn next_back(&mut self) -> (r: Option<u16>) {
        if self.start < self.end {
            self.end = self.end - 1;
            proof {
                assert(final(self).remaining() =~= retreat(old(self).remaining()));
            }
            Some(self.end)
        } else {
            None
        }
    }
}

impl TrustedIterator for Range<u16> {
    proof fn lemma_exact_size(&self) {
    }
}

impl Sequence for Range<i16> {
    type Item = i16;

    open spec fn wf(&self) -> bool {
        true
    }

    open spec fn remaining(&self) -> Seq<i16> {
        Seq::new(span(self.start as int, self.end as int), |at: int| (self.start + at) as i16)
    }

    open spec fn size_estimate(&self) -> SizeEstimate {
        let n = span(self.start as int, self.end as int) as usize;
        (n, Some(n))
    }

    fn next(&mut self) -> (r: Option<i16>) {
        if self.start < self.end {
            let elt = self.start;
            self.start = elt + 1;
            proof {
                assert(final(self).remaining() =~= advance(old(self).remaining()));
            }
            Some(elt)
        } else {
            None
        }
    }

    fn size_hint(&self) -> (r: SizeEstimate) {
        let n = if self.start < self.end {
            (self.end as i32 - self.start as i32) as usize
        } else {
            0
        };
        (n, Some(n))
    }
}

impl DoubleEnded for Range<i16> {
    fn next_back(&mut self) -> (r: Option<i16>) {
        if self.start < self.end {
            self.end = self.end - 1;
            proof {
                assert(final(self).remaining() =~= retreat(old(self).remaining()));
            }
            Some(self.end)
        } else {
            None
        }
    }
}

impl TrustedIterator for Range<i16> {
    proof fn lemma_exact_size(&self) {
    }
}

impl Sequence for Range<u8> {
    type Item = u8;

    open spec fn wf(&self) -> bool {
        true
    }

    open spec fn remaining(&self) -> Seq<u8> {
        Seq::new(span(self.start as int, self.end as int), |at: int| (self.start + at) as u8)
    }

    open spec fn size_estimate(&self) -> SizeEstimate {
        let n = span(self.start as int, self.end as int) as usize;
        (n, Some(n))
    }

    fn next(&mut self) -> (r: Option<u8>) {
        if self.start < self.end {
            let elt = self.start;
            self.start = elt + 1;
            proof {
                assert(final(self).remaining() =~= advance(old(self).remaining()));
            }
            Some(elt)
        } else {
            None
        }
    }

    fn size_hint(&self) -> (r: SizeEstimate) {
        let n = if self.start < self.end {
            (self.end - self.start) as usize
        } else {
            0
        };
        (n, Some(n))
    }
}

impl DoubleEnded for Range<u8> {
    fn next_back(&mut self) -> (r: Option<u8>) {
        if self.start < self.end {
            self.end = self.end - 1;
            proof {
                assert(final(self).remaining() =~= retreat(old(self).remaining()));
            }
            Some(self.end)
        } else {
            None
        }
    }
}

impl TrustedIterator for Range<u8> {
    proof fn lemma_exact_size(&self) {
    }
}

impl Sequence for Range<i8> {
    type Item = i8;

    open spec fn wf(&self) -> bool {
        true
    }

    open spec fn remaining(&self) -> Seq<i8> {
        Seq::new(span(self.start as int, self.end as int), |at: int| (self.start + at) as i8)
    }

    open spec fn size_estimate(&self) -> SizeEstimate {
        let n = span(self.start as int, self.end as int) as usize;
        (n, Some(n))
    }

    fn next(&mut self) -> (r: Option<i8>) {
        if self.start < self.end {
            let elt = self.start;
            self.start = elt + 1;
            proof {
                assert(final(self).remaining() =~= advance(old(self).remaining()));
            }
            Some(elt)
        } else {
            None
        }
    }

    fn size_hint(&self) -> (r: SizeEstimate) {
        let n = if self.start < self.end {
            (self.end as i16 - self.start as i16) as usize
        } else {
            0
        };
        (n, Some(n))
    }
}

impl DoubleEnded for Range<i8> {
    fn next_back(&mut self) -> (r: Option<i8>) {
        if self.start < self.end {
            self.end = self.end - 1;
            proof {
                assert(final(self).remaining() =~= retreat(old(self).remaining()));
            }
            Some(self.end)
        } else {
            None
        }
    }
}

impl TrustedIterator for Range<i8> {
    proof fn lemma_exact_size(&self) {
    }
}

} // verus!

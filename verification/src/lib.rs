//! Lockstep traversal of several sequences as one sequence of tuples.
//!
//! [`Zip`] works over any [`Sequence`] and stops at the first component that
//! runs dry. [`ZipTrusted`] takes only components whose size estimate is exact
//! ([`TrustedIterator`]), caches the combined count once, and decides
//! termination from that count alone.

pub mod owned;
pub mod range;
pub mod rev;
pub mod sequence;
pub mod slice;
pub mod take;
pub mod trusted;
pub mod zip;

pub use owned::VecIter;
pub use rev::Rev;
pub use sequence::{drain, DoubleEnded, Sequence, SizeEstimate, TrustedIterator};
pub use slice::SliceIter;
pub use take::Take;
pub use trusted::{TrustedTuple, ZipTrusted};
pub use zip::Zip;

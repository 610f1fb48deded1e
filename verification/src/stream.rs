//! The outcome of polling a pull-based producer of items.
//!
//! Both protocol transforms are pull-based: each does work only when its
//! consumer asks for the next item, and each passes "not ready yet" and
//! "no more items" through from its upstream producer unchanged. The
//! asynchronous plumbing that drives a transform lives outside this crate;
//! the transforms themselves are ordinary functions from one poll outcome
//! to the next.

use vstd::prelude::*;

verus! {

/// One answer from a pull-based producer: the next item, not ready yet,
/// or no more items ever.
pub enum PollNext<T> {
    Item(T),
    Pending,
    Exhausted,
}

} // verus!

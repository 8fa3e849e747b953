//! Buffer views for scatter/gather transfers, and the bound they put on a
//! transfer.
//!
//! A view names a region of caller memory by its address and its length. The
//! layer never reads or writes the region; what it needs of a view is its
//! length, since the lengths of the views handed to the host bound the number
//! of bytes the host can have transferred.

use crate::errno::{Status, ESUCCESS};
use vstd::prelude::*;

verus! {

/// A region of caller memory with a known extent.
pub trait Extent {
    /// The number of bytes the region holds.
    spec fn extent(&self) -> nat;

    /// The number of bytes the region holds.
    fn len(&self) -> (n: usize)
        ensures
            n == self.extent(),
    ;
}

/// A view of destination memory that the host may fill.
#[derive(Clone, Copy, Debug, PartialEq, Eq, Structural)]
pub struct IoVec {
    pub buf: usize,
    pub buf_len: usize,
}

/// A view of source memory that the host may read.
#[derive(Clone, Copy, Debug, PartialEq, Eq, Structural)]
pub struct CIoVec {
    pub buf: usize,
    pub buf_len: usize,
}

impl Extent for IoVec {
    open spec fn extent(&self) -> nat {
        self.buf_len as nat
    }

    fn len(&self) -> (n: usize) {
        self.buf_len
    }
}

impl Extent for CIoVec {
    open spec fn extent(&self) -> nat {
        self.buf_len as nat
    }

    fn len(&self) -> (n: usize) {
        self.buf_len
    }
}

/// The combined extent of a sequence of views: the most that one transfer
/// over them can move.
pub open spec fn total_capacity<V: Extent>(views: Seq<V>) -> nat
    decreases views.len(),
{
    if views.len() == 0 {
        0
    } else {
        total_capacity(views.drop_last()) + views.last().extent()
    }
}

/// What the ABI demands of the host in a transfer: if the call succeeded,
/// the count it reports is at most `capacity`.
pub open spec fn honours_capacity(status: Status, count: usize, capacity: nat) -> bool {
    status == ESUCCESS ==> count <= capacity
}

/// A prefix of a sequence of views holds no more than the whole.
pub proof fn lemma_prefix_capacity<V: Extent>(views: Seq<V>, n: int)
    requires
        0 <= n <= views.len(),
    ensures
        total_capacity(views.take(n)) <= total_capacity(views),
    decreases views.len(),
{
    if n == views.len() {
        assert(views.take(n) =~= views);
    } else {
        lemma_prefix_capacity(views.drop_last(), n);
        assert(views.drop_last().take(n) =~= views.take(n));
    }
}

/// Tells whether a transfer of `count` bytes fits the views: whether `count`
/// is at most their combined extent. The sum of the extents is never formed,
/// so views whose lengths add up beyond `usize` are handled too.
pub fn within_capacity<V: Extent>(views: &[V], count: usize) -> (fits: bool)
    ensures
        fits == (count <= total_capacity(views@)),
{
    let mut rest: usize = count;
    let mut i: usize = 0;
    while i < views.len()
        invariant
            i <= views@.len(),
            rest + total_capacity(views@.take(i as int)) == count,
        decreases views@.len() - i,
    {
        let extent: usize = views[i].len();
        proof {
            assert(views@.take(i + 1).drop_last() =~= views@.take(i as int));
            lemma_prefix_capacity(views@, i + 1);
        }
        if rest <= extent {
            return true;
        }
        rest = rest - extent;
        i = i + 1;
    }
    proof {
        assert(views@.take(i as int) =~= views@);
    }
    rest == 0
}

} // verus!

//! The queue families that share a buffer, in the vector that the driver
//! reads them from.

use vstd::prelude::*;
use smallvec::SmallVec;

verus! {

/// The queue families that share a buffer, as the driver is handed them.
///
/// They lie in a `SmallVec<[u32; 8]>`, which the verifier does not look
/// into. What it holds goes by the name [`queue_family_ids`], and all that
/// is known of that name is what the four functions below state of the
/// methods of `SmallVec` that they call. None of this is proved.
#[derive(Debug)]
#[verifier::external_body]
pub struct QueueFamilyIndices {
    inner: SmallVec<[u32; 8]>,
}

/// The indices that a [`QueueFamilyIndices`] holds, in their order.
pub uninterp spec fn queue_family_ids(indices: QueueFamilyIndices) -> Seq<u32>;

impl View for QueueFamilyIndices {
    type V = Seq<u32>;

    open spec fn view(&self) -> Seq<u32> {
        queue_family_ids(*self)
    }
}

/// Calls `SmallVec::new`. Taken on trust: the vector that it returns holds
/// nothing.
#[verifier::external_body]
pub(crate) fn no_indices() -> (v: QueueFamilyIndices)
    ensures
        queue_family_ids(v) == Seq::<u32>::empty(),
{
    QueueFamilyIndices { inner: SmallVec::new() }
}

/// Calls `SmallVec::from_iter`, by way of `collect`. Taken on trust: the
/// vector that it returns holds the items of `ids`, in their order.
#[verifier::external_body]
pub(crate) fn collect_indices(ids: Vec<u32>) -> (v: QueueFamilyIndices)
    ensures
        queue_family_ids(v) == ids@,
{
    QueueFamilyIndices { inner: ids.into_iter().collect() }
}

/// Calls `SmallVec::len`. Taken on trust: it returns the number of items
/// that the vector holds.
#[verifier::external_body]
fn count_indices(v: &QueueFamilyIndices) -> (n: usize)
    ensures
        n == queue_family_ids(*v).len(),
{
    v.inner.len()
}

/// Calls `SmallVec::as_slice`. Taken on trust: the slice that it returns
/// holds the items of the vector, in their order.
#[verifier::external_body]
fn indices_as_slice(v: &QueueFamilyIndices) -> (s: &[u32])
    ensures
        s@ == queue_family_ids(*v),
{
    v.inner.as_slice()
}

impl QueueFamilyIndices {
    /// The number of queue families.
    pub fn len(&self) -> (n: usize)
        ensures
            n == self@.len(),
    {
        count_indices(self)
    }

    /// The indices of the queue families, in their order.
    pub fn as_slice(&self) -> (s: &[u32])
        ensures
            s@ == self@,
    {
        indices_as_slice(self)
    }
}

} // verus!

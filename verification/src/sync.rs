//! How work on the device is shared and ordered.

use vstd::prelude::*;
use crate::vk;

pub mod chain;
pub mod future;

verus! {

/// Which queue families may use a resource.
#[derive(Debug)]
pub enum Sharing {
    /// One queue family at a time.
    Exclusive,
    /// The queue families with these indices, at the same time.
    Concurrent(Vec<u32>),
}

impl Sharing {
    /// The native sharing mode.
    pub open spec fn mode(&self) -> u32 {
        match self {
            Sharing::Exclusive => vk::SHARING_MODE_EXCLUSIVE,
            Sharing::Concurrent(_) => vk::SHARING_MODE_CONCURRENT,
        }
    }

    /// The indices of the queue families that are named.
    pub open spec fn queue_families(&self) -> Seq<u32> {
        match self {
            Sharing::Exclusive => Seq::empty(),
            Sharing::Concurrent(ids) => ids@,
        }
    }
}

} // verus!

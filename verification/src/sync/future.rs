//! Pending work on the device, as a chain that can be grown, submitted and
//! polled.
//!
//! A chain is a tree. Its leaves stand for nothing to wait for; each inner
//! node joins two chains, appends a unit of work to one, or marks that all
//! beneath it went to the driver under one fence. Every unit of work keeps
//! the resources it uses until it is known to be over.
//!
//! The driver is not called from here. What it reports comes in as an
//! argument: the result of a submission to
//! [`FutureNode::then_signal_and_flush`], a fence that it has signaled to
//! [`FutureNode::fence_signaled`].

use vstd::prelude::*;
use crate::error::check_errors;
use crate::error::meaning;
use crate::error::read_result;
use crate::error::Error;
use crate::error::OomError;
use crate::swapchain::Swapchain;
use crate::sync::chain::Chain;
use crate::sync::chain::NodeState;
use crate::sync::chain::Work;

verus! {

/// One unit of work for the device, with the resources that it uses.
#[derive(Debug)]
pub struct Submission {
    state: NodeState,
    resources: Vec<u64>,
}

impl View for Submission {
    type V = Work;

    closed spec fn view(&self) -> Work {
        Work { state: self.state, resources: self.resources@ }
    }
}

impl Submission {
    /// How far the work has come.
    pub fn state(&self) -> (s: NodeState)
        ensures
            s == self@.state,
    {
        self.state
    }

    /// The keys of the resources that are kept for the work.
    pub fn resources(&self) -> (r: &Vec<u64>)
        ensures
            r@ == self@.resources,
    {
        &self.resources
    }

    /// Whether the work is not over and uses the resource with the key
    /// `key`.
    pub fn uses(&self, key: u64) -> (b: bool)
        ensures
            b == self@.in_use().contains(key),
    {
        if self.state.is_terminal() {
            return false;
        }
        let mut i: usize = 0;
        while i < self.resources.len()
            invariant
                !self@.state.terminal(),
                i <= self.resources@.len(),
                forall|j: int| 0 <= j < i ==> self.resources@[j] != key,
            decreases self.resources@.len() - i,
        {
            if self.resources[i] == key {
                assert(self@.in_use()[i as int] == key);
                return true;
            }
            i += 1;
        }
        false
    }

    fn resources_into(&self, kept: &mut Vec<u64>)
        ensures
            final(kept)@ == old(kept)@ + self@.resources,
    {
        let mut i: usize = 0;
        while i < self.resources.len()
            invariant
                i <= self.resources@.len(),
                kept@ == old(kept)@ + self.resources@.subrange(0, i as int),
            decreases self.resources@.len() - i,
        {
            kept.push(self.resources[i]);
            assert(self.resources@.subrange(0, i + 1) =~= self.resources@.subrange(0, i as int).push(
                self.resources@[i as int],
            ));
            assert(old(kept)@ + self.resources@.subrange(0, i + 1) =~= (old(kept)@
                + self.resources@.subrange(0, i as int)).push(self.resources@[i as int]));
            i += 1;
        }
        assert(self.resources@.subrange(0, i as int) =~= self.resources@);
    }

    fn pending(resources: Vec<u64>) -> (s: Submission)
        ensures
            s@ == (Work { state: NodeState::Pending, resources: resources@ }),
    {
        Submission { state: NodeState::Pending, resources }
    }

    fn move_on(&mut self, from: NodeState, to: NodeState)
        ensures
            final(self)@ == old(self)@.moved(from, to),
    {
        if self.state == from {
            self.state = to;
        }
    }

    fn release_into(&mut self, released: &mut Vec<u64>)
        ensures
            final(self)@ == old(self)@.cleaned(),
            final(released)@ == old(released)@ + old(self)@.releasable(),
    {
        if self.state.is_terminal() {
            released.append(&mut self.resources);
        } else {
            assert(released@ + Seq::<u64>::empty() =~= released@);
        }
    }
}

/// Why a chain could not be submitted.
#[derive(Clone, Copy, Debug, PartialEq, Eq, Structural)]
pub enum FlushError {
    /// Not enough memory.
    OomError(OomError),
    /// The connection to the device has been lost.
    DeviceLost,
    /// The surface is no longer accessible and must be recreated.
    SurfaceLost,
    /// The swapchain has become stale: it must be recreated, and the work
    /// submitted again.
    OutOfDate,
    /// The swapchain has lost or doesn't have fullscreen exclusivity.
    FullscreenExclusiveLost,
}

impl FlushError {
    /// Whether a submission may fail with `err`.
    pub open spec fn covers(err: Error) -> bool {
        ||| OomError::covers(err)
        ||| err == Error::DeviceLost
        ||| err == Error::SurfaceLost
        ||| err == Error::OutOfDate
        ||| err == Error::FullscreenExclusiveLost
    }

    /// The flush error that the failure `err` of a submission stands for.
    pub open spec fn of(err: Error) -> FlushError {
        match err {
            Error::DeviceLost => FlushError::DeviceLost,
            Error::SurfaceLost => FlushError::SurfaceLost,
            Error::OutOfDate => FlushError::OutOfDate,
            Error::FullscreenExclusiveLost => FlushError::FullscreenExclusiveLost,
            _ => FlushError::OomError(OomError::of(err)),
        }
    }

    /// The flush error that a failure of the driver stands for. A failure
    /// that no submission can end in is unexpected, and is left to the caller
    /// to rule out.
    pub fn from_error(err: Error) -> (r: FlushError)
        requires
            Self::covers(err),
        ensures
            r == Self::of(err),
    {
        match err {
            Error::DeviceLost => FlushError::DeviceLost,
            Error::SurfaceLost => FlushError::SurfaceLost,
            Error::OutOfDate => FlushError::OutOfDate,
            Error::FullscreenExclusiveLost => FlushError::FullscreenExclusiveLost,
            _ => FlushError::OomError(OomError::from_error(err)),
        }
    }

    /// A sentence that describes the error.
    pub fn description(&self) -> (s: &'static str)
        ensures
            *self is OomError ==> s@ == "not enough memory"@,
            *self is DeviceLost ==> s@ == "the connection to the device has been lost"@,
            *self is SurfaceLost ==> s@ == "the surface of this swapchain is no longer valid"@,
            *self is OutOfDate ==> s@ == "the swapchain needs to be recreated"@,
            *self is FullscreenExclusiveLost ==> s@
                == "the swapchain no longer has fullscreen exclusivity"@,
    {
        match self {
            FlushError::OomError(_) => "not enough memory",
            FlushError::DeviceLost => "the connection to the device has been lost",
            FlushError::SurfaceLost => "the surface of this swapchain is no longer valid",
            FlushError::OutOfDate => "the swapchain needs to be recreated",
            FlushError::FullscreenExclusiveLost => {
                "the swapchain no longer has fullscreen exclusivity"
            },
        }
    }
}

/// Whether `code` is what the driver may answer to a submission: a success,
/// or a failure that a submission can end in.
pub open spec fn flush_result(code: i32) -> bool {
    match meaning(code) {
        Some(Ok(_)) => true,
        Some(Err(err)) => FlushError::covers(err),
        None => false,
    }
}

/// Whether `code` is what the driver may answer to a submission.
pub fn is_flush_result(code: i32) -> (b: bool)
    ensures
        b == flush_result(code),
{
    match read_result(code) {
        Some(Ok(_)) => true,
        Some(Err(err)) => match err {
            Error::OutOfHostMemory => true,
            Error::OutOfDeviceMemory => true,
            Error::DeviceLost => true,
            Error::SurfaceLost => true,
            Error::OutOfDate => true,
            Error::FullscreenExclusiveLost => true,
            _ => false,
        },
        None => false,
    }
}

/// A value is in two sequences put end to end exactly where it is in one
/// of them.
proof fn lemma_contains_of_concat(a: Seq<u64>, b: Seq<u64>, key: u64)
    ensures
        (a + b).contains(key) == (a.contains(key) || b.contains(key)),
{
    if a.contains(key) {
        let i = choose|i: int| 0 <= i < a.len() && a[i] == key;
        assert((a + b)[i] == key);
    }
    if b.contains(key) {
        let i = choose|i: int| 0 <= i < b.len() && b[i] == key;
        assert((a + b)[a.len() + i] == key);
    }
    if (a + b).contains(key) {
        let i = choose|i: int| 0 <= i < (a + b).len() && (a + b)[i] == key;
        if i < a.len() {
            assert(a[i] == key);
        } else {
            assert(b[i - a.len()] == key);
        }
    }
}

/// A submission that the driver refused.
#[derive(Debug)]
pub struct FlushFailure {
    /// Why the driver refused.
    pub error: FlushError,
    /// The chain as the refusal leaves it. None of its work is pending any
    /// more; what went to the driver before is still to be waited for.
    pub chain: FutureNode,
}

/// A chain of work for the device.
#[derive(Debug)]
pub enum FutureNode {
    /// Nothing to wait for.
    Now,
    /// Two chains, in no order.
    Join(Box<FutureNode>, Box<FutureNode>),
    /// A chain, and then commands to execute.
    ThenExecute(Box<FutureNode>, Submission),
    /// A chain, and then an image to present.
    ThenPresent(Box<FutureNode>, Submission),
    /// A chain that went to the driver as a whole, under a fence.
    Signaled(Box<FutureNode>, u64),
}

impl View for FutureNode {
    type V = Chain;

    open spec fn view(&self) -> Chain {
        self.chain()
    }
}

impl FutureNode {
    /// What the contracts say of the chain.
    pub open spec fn chain(&self) -> Chain
        decreases self,
    {
        match self {
            FutureNode::Now => Chain::Now,
            FutureNode::Join(a, b) => Chain::Join(Box::new(a.chain()), Box::new(b.chain())),
            FutureNode::ThenExecute(previous, work) => Chain::ThenExecute(
                Box::new(previous.chain()),
                work@,
            ),
            FutureNode::ThenPresent(previous, work) => Chain::ThenPresent(
                Box::new(previous.chain()),
                work@,
            ),
            FutureNode::Signaled(previous, fence) => Chain::Signaled(
                Box::new(previous.chain()),
                *fence,
            ),
        }
    }

    /// A chain with nothing to wait for.
    pub fn now() -> (r: FutureNode)
        ensures
            r@ == Chain::Now,
    {
        FutureNode::Now
    }

    /// The chain that is over once both `self` and `other` are.
    pub fn join(self, other: FutureNode) -> (r: FutureNode)
        ensures
            r@ == Chain::Join(Box::new(self@), Box::new(other@)),
    {
        FutureNode::Join(Box::new(self), Box::new(other))
    }

    /// Appends commands to execute once `self` has gone to the driver. They
    /// use the resources with the keys `resources`, which the chain keeps
    /// until the commands are over.
    pub fn then_execute(self, resources: Vec<u64>) -> (r: FutureNode)
        ensures
            r@ == Chain::ThenExecute(
                Box::new(self@),
                Work { state: NodeState::Pending, resources: resources@ },
            ),
    {
        FutureNode::ThenExecute(Box::new(self), Submission::pending(resources))
    }

    /// Appends the presentation of the image with index `image_index` of
    /// `swapchain` once `self` has gone to the driver. The chain keeps the
    /// image until it has been presented.
    ///
    /// An index that is not one of an image of `swapchain` is a fault of the
    /// caller, which is to rule it out.
    pub fn then_present(self, swapchain: &Swapchain, image_index: usize) -> (r: FutureNode)
        requires
            image_index < swapchain@.images.len(),
        ensures
            r@ == Chain::ThenPresent(
                Box::new(self@),
                Work {
                    state: NodeState::Pending,
                    resources: seq![swapchain@.images[image_index as int]],
                },
            ),
    {
        let mut resources: Vec<u64> = Vec::new();
        resources.push(swapchain.image(image_index));
        proof {
            assert(resources@ =~= seq![swapchain@.images[image_index as int]]);
        }
        FutureNode::ThenPresent(Box::new(self), Submission::pending(resources))
    }

    fn move_on(&mut self, from: NodeState, to: NodeState)
        ensures
            final(self)@ == old(self)@.moved(from, to),
        decreases *old(self),
    {
        match self {
            FutureNode::Now => {},
            FutureNode::Join(a, b) => {
                a.move_on(from, to);
                b.move_on(from, to);
            },
            FutureNode::ThenExecute(previous, work) => {
                previous.move_on(from, to);
                work.move_on(from, to);
            },
            FutureNode::ThenPresent(previous, work) => {
                previous.move_on(from, to);
                work.move_on(from, to);
            },
            FutureNode::Signaled(previous, _) => {
                previous.move_on(from, to);
            },
        }
    }

    /// Records what the driver answered to the submission of the chain,
    /// which was to signal `fence` at its end. `result` is what the driver
    /// returned.
    ///
    /// On success all that was pending is flushed, and the chain that is
    /// returned guards it under `fence`. On failure all that was pending has
    /// failed, and the error holds the reason and the chain.
    ///
    /// A `result` that no submission can end in is a fault of the driver,
    /// which the caller is to rule out.
    pub fn then_signal_and_flush(self, fence: u64, result: i32) -> (r: Result<
        FutureNode,
        FlushFailure,
    >)
        requires
            flush_result(result),
        ensures
            match r {
                Ok(chain) => self@.submission_outcome(fence, result) == Ok::<
                    _,
                    (FlushError, Chain),
                >(chain@),
                Err(failure) => self@.submission_outcome(fence, result) == Err::<Chain, _>(
                    (failure.error, failure.chain@),
                ),
            },
    {
        let mut chain = self;
        match check_errors(result) {
            Err(err) => {
                chain.move_on(NodeState::Pending, NodeState::Errored);
                Err(FlushFailure { error: FlushError::from_error(err), chain })
            },
            Ok(_) => {
                chain.move_on(NodeState::Pending, NodeState::Flushed);
                Ok(FutureNode::Signaled(Box::new(chain), fence))
            },
        }
    }

    /// Records that the driver has signaled `fence`: all that went to the
    /// driver under that fence, and was flushed, is signaled.
    pub fn fence_signaled(&mut self, fence: u64)
        ensures
            final(self)@ == old(self)@.signaled(fence),
        decreases *old(self),
    {
        match self {
            FutureNode::Now => {},
            FutureNode::Join(a, b) => {
                a.fence_signaled(fence);
                b.fence_signaled(fence);
            },
            FutureNode::ThenExecute(previous, _) => {
                previous.fence_signaled(fence);
            },
            FutureNode::ThenPresent(previous, _) => {
                previous.fence_signaled(fence);
            },
            FutureNode::Signaled(previous, own) => {
                if *own == fence {
                    previous.move_on(NodeState::Flushed, NodeState::Signaled);
                } else {
                    previous.fence_signaled(fence);
                }
            },
        }
    }

    fn release_into(&mut self, released: &mut Vec<u64>)
        ensures
            final(self)@ == old(self)@.cleaned(),
            final(released)@ == old(released)@ + old(self)@.releasable(),
        decreases *old(self),
    {
        match self {
            FutureNode::Now => {
                assert(released@ + Seq::<u64>::empty() =~= released@);
            },
            FutureNode::Join(a, b) => {
                let ghost before = released@;
                let ghost first = a@.releasable();
                let ghost second = b@.releasable();
                a.release_into(released);
                b.release_into(released);
                assert(before + first + second =~= before + (first + second));
            },
            FutureNode::ThenExecute(previous, work) => {
                let ghost before = released@;
                let ghost first = previous@.releasable();
                let ghost second = work@.releasable();
                previous.release_into(released);
                work.release_into(released);
                assert(before + first + second =~= before + (first + second));
            },
            FutureNode::ThenPresent(previous, work) => {
                let ghost before = released@;
                let ghost first = previous@.releasable();
                let ghost second = work@.releasable();
                previous.release_into(released);
                work.release_into(released);
                assert(before + first + second =~= before + (first + second));
            },
            FutureNode::Signaled(previous, _) => {
                previous.release_into(released);
            },
        }
    }

    /// Lets go of the resources of every unit of work that is over, and
    /// returns their keys. The states of the chain stay as they are, and so
    /// do the resources of the work that is not over.
    pub fn cleanup_finished(&mut self) -> (released: Vec<u64>)
        ensures
            final(self)@ == old(self)@.cleaned(),
            released@ == old(self)@.releasable(),
    {
        let mut released: Vec<u64> = Vec::new();
        self.release_into(&mut released);
        assert(Seq::<u64>::empty() + old(self)@.releasable() =~= old(self)@.releasable());
        released
    }

    fn retained_into(&self, kept: &mut Vec<u64>)
        ensures
            final(kept)@ == old(kept)@ + self@.retained(),
        decreases self,
    {
        match self {
            FutureNode::Now => {
                assert(kept@ + Seq::<u64>::empty() =~= kept@);
            },
            FutureNode::Join(a, b) => {
                let ghost before = kept@;
                a.retained_into(kept);
                b.retained_into(kept);
                assert(before + a@.retained() + b@.retained() =~= before + (a@.retained()
                    + b@.retained()));
            },
            FutureNode::ThenExecute(previous, work) => {
                let ghost before = kept@;
                previous.retained_into(kept);
                work.resources_into(kept);
                assert(before + previous@.retained() + work@.resources =~= before + (
                previous@.retained() + work@.resources));
            },
            FutureNode::ThenPresent(previous, work) => {
                let ghost before = kept@;
                previous.retained_into(kept);
                work.resources_into(kept);
                assert(before + previous@.retained() + work@.resources =~= before + (
                previous@.retained() + work@.resources));
            },
            FutureNode::Signaled(previous, _) => {
                previous.retained_into(kept);
            },
        }
    }

    /// The keys of the resources that the chain keeps, unit by unit.
    pub fn retained(&self) -> (kept: Vec<u64>)
        ensures
            kept@ == self@.retained(),
    {
        let mut kept: Vec<u64> = Vec::new();
        self.retained_into(&mut kept);
        assert(Seq::<u64>::empty() + self@.retained() =~= self@.retained());
        kept
    }

    /// Whether work of the chain that is not over uses the resource with
    /// the key `key`.
    pub fn uses(&self, key: u64) -> (b: bool)
        ensures
            b == self@.in_use().contains(key),
        decreases self,
    {
        match self {
            FutureNode::Now => false,
            FutureNode::Join(a, b) => {
                proof {
                    lemma_contains_of_concat(a@.in_use(), b@.in_use(), key);
                }
                a.uses(key) || b.uses(key)
            },
            FutureNode::ThenExecute(previous, work) => {
                proof {
                    lemma_contains_of_concat(previous@.in_use(), work@.in_use(), key);
                }
                previous.uses(key) || work.uses(key)
            },
            FutureNode::ThenPresent(previous, work) => {
                proof {
                    lemma_contains_of_concat(previous@.in_use(), work@.in_use(), key);
                }
                previous.uses(key) || work.uses(key)
            },
            FutureNode::Signaled(previous, _) => previous.uses(key),
        }
    }

    /// Whether every unit of work of the chain is over.
    pub fn is_over(&self) -> (b: bool)
        ensures
            b == self@.all_terminal(),
        decreases self,
    {
        match self {
            FutureNode::Now => true,
            FutureNode::Join(a, b) => a.is_over() && b.is_over(),
            FutureNode::ThenExecute(previous, work) => previous.is_over()
                && work.state().is_terminal(),
            FutureNode::ThenPresent(previous, work) => previous.is_over()
                && work.state().is_terminal(),
            FutureNode::Signaled(previous, _) => previous.is_over(),
        }
    }

    /// Ends the chain, if all of its work is over, and returns the keys of
    /// the resources that it still kept. A chain with work that is not over
    /// is handed back as it is: its resources are not to be let go yet.
    pub fn release(self) -> (r: Result<Vec<u64>, FutureNode>)
        ensures
            match r {
                Ok(released) => self@.all_terminal() && released@ == self@.retained(),
                Err(chain) => !self@.all_terminal() && chain@ == self@,
            },
    {
        if self.is_over() {
            Ok(self.retained())
        } else {
            Err(self)
        }
    }

    /// The state of the work of the chain taken as one.
    pub fn state(&self) -> (s: NodeState)
        ensures
            s == self@.status(),
        decreases self,
    {
        match self {
            FutureNode::Now => NodeState::Signaled,
            FutureNode::Join(a, b) => a.state().combine(b.state()),
            FutureNode::ThenExecute(previous, work) => previous.state().combine(work.state()),
            FutureNode::ThenPresent(previous, work) => previous.state().combine(work.state()),
            FutureNode::Signaled(previous, _) => previous.state(),
        }
    }
}

} // verus!

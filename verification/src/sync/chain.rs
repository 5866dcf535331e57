//! What the contracts say of work on the device: the states of a unit of
//! work, a chain of such units, what each report of the driver makes of a
//! chain, and what holds of chains whatever is reported.

use vstd::prelude::*;
use crate::error::meaning;
use crate::error::Error;
use crate::error::Success;
use crate::sync::future::FlushError;

verus! {

/// How far a unit of work has come.
///
/// A unit starts `Pending`. Submission makes it `Flushed`, and from there
/// the driver's report makes it `Signaled` or `Errored`, where it stays.
#[derive(Clone, Copy, Debug, PartialEq, Eq, Structural)]
pub enum NodeState {
    /// Not handed to the driver yet.
    Pending,
    /// Handed to the driver, and not known to be over.
    Flushed,
    /// Known to be over.
    Signaled,
    /// Known to have failed.
    Errored,
}

impl NodeState {
    /// Whether nothing more can happen to the work.
    pub open spec fn terminal(self) -> bool {
        self == NodeState::Signaled || self == NodeState::Errored
    }

    /// Whether nothing more can happen to the work.
    pub fn is_terminal(self) -> (b: bool)
        ensures
            b == self.terminal(),
    {
        match self {
            NodeState::Signaled => true,
            NodeState::Errored => true,
            _ => false,
        }
    }

    /// Whether work in this state can come to be in state `next`, in any
    /// number of steps.
    pub open spec fn reaches(self, next: NodeState) -> bool {
        match self {
            NodeState::Pending => true,
            NodeState::Flushed => next != NodeState::Pending,
            NodeState::Signaled => next == NodeState::Signaled,
            NodeState::Errored => next == NodeState::Errored,
        }
    }

    /// The state of two pieces of work taken as one: failed where either
    /// failed; else only as far as the one that is less far.
    pub open spec fn with(self, other: NodeState) -> NodeState {
        if self == NodeState::Errored || other == NodeState::Errored {
            NodeState::Errored
        } else if self == NodeState::Pending || other == NodeState::Pending {
            NodeState::Pending
        } else if self == NodeState::Flushed || other == NodeState::Flushed {
            NodeState::Flushed
        } else {
            NodeState::Signaled
        }
    }

    /// The state of two pieces of work taken as one.
    pub fn combine(self, other: NodeState) -> (s: NodeState)
        ensures
            s == self.with(other),
    {
        match (self, other) {
            (NodeState::Errored, _) => NodeState::Errored,
            (_, NodeState::Errored) => NodeState::Errored,
            (NodeState::Pending, _) => NodeState::Pending,
            (_, NodeState::Pending) => NodeState::Pending,
            (NodeState::Flushed, _) => NodeState::Flushed,
            (_, NodeState::Flushed) => NodeState::Flushed,
            _ => NodeState::Signaled,
        }
    }
}

/// What the contracts say of a unit of work.
pub struct Work {
    /// How far the work has come.
    pub state: NodeState,
    /// The keys of the resources that are kept for the work.
    pub resources: Seq<u64>,
}

impl Work {
    /// The work with every resource let go, where it is over; else as it is.
    pub open spec fn cleaned(self) -> Work {
        if self.state.terminal() {
            Work { state: self.state, resources: Seq::empty() }
        } else {
            self
        }
    }

    /// The work in state `to`, where it was in state `from`; else as it is.
    pub open spec fn moved(self, from: NodeState, to: NodeState) -> Work {
        if self.state == from {
            Work { state: to, resources: self.resources }
        } else {
            self
        }
    }

    /// Whether the work can have come from `earlier`: its state is one that
    /// the earlier state leads to, and its resources are those it had,
    /// unless it is over and has let go of them.
    pub open spec fn follows(self, earlier: Work) -> bool {
        &&& earlier.state.reaches(self.state)
        &&& self.resources == earlier.resources || (self.state.terminal() && self.resources
            == Seq::<u64>::empty())
    }

    /// The resources that can be let go: all, where the work is over.
    pub open spec fn releasable(self) -> Seq<u64> {
        if self.state.terminal() {
            self.resources
        } else {
            Seq::empty()
        }
    }

    /// The resources that must be kept: all, where the work is not over.
    pub open spec fn in_use(self) -> Seq<u64> {
        if self.state.terminal() {
            Seq::empty()
        } else {
            self.resources
        }
    }
}

/// What the contracts say of a chain of work.
pub enum Chain {
    /// Nothing to wait for.
    Now,
    /// Two chains, in no order.
    Join(Box<Chain>, Box<Chain>),
    /// A chain, and then commands to execute.
    ThenExecute(Box<Chain>, Work),
    /// A chain, and then an image to present.
    ThenPresent(Box<Chain>, Work),
    /// A chain that went to the driver as a whole, under a fence.
    Signaled(Box<Chain>, u64),
}

impl Chain {
    /// The state of the work of the chain taken as one. Work that follows
    /// other work is over only where that work is over too.
    pub open spec fn status(self) -> NodeState
        decreases self,
    {
        match self {
            Chain::Now => NodeState::Signaled,
            Chain::Join(a, b) => a.status().with(b.status()),
            Chain::ThenExecute(previous, work) => previous.status().with(work.state),
            Chain::ThenPresent(previous, work) => previous.status().with(work.state),
            Chain::Signaled(previous, _) => previous.status(),
        }
    }

    /// Whether every unit of work has gone to the driver.
    pub open spec fn no_pending(self) -> bool
        decreases self,
    {
        match self {
            Chain::Now => true,
            Chain::Join(a, b) => a.no_pending() && b.no_pending(),
            Chain::ThenExecute(previous, work) => previous.no_pending() && work.state
                != NodeState::Pending,
            Chain::ThenPresent(previous, work) => previous.no_pending() && work.state
                != NodeState::Pending,
            Chain::Signaled(previous, _) => previous.no_pending(),
        }
    }

    /// Whether every unit of work is over.
    pub open spec fn all_terminal(self) -> bool
        decreases self,
    {
        match self {
            Chain::Now => true,
            Chain::Join(a, b) => a.all_terminal() && b.all_terminal(),
            Chain::ThenExecute(previous, work) => previous.all_terminal() && work.state.terminal(),
            Chain::ThenPresent(previous, work) => previous.all_terminal() && work.state.terminal(),
            Chain::Signaled(previous, _) => previous.all_terminal(),
        }
    }

    /// The resources that the chain keeps, unit by unit.
    pub open spec fn retained(self) -> Seq<u64>
        decreases self,
    {
        match self {
            Chain::Now => Seq::empty(),
            Chain::Join(a, b) => a.retained() + b.retained(),
            Chain::ThenExecute(previous, work) => previous.retained() + work.resources,
            Chain::ThenPresent(previous, work) => previous.retained() + work.resources,
            Chain::Signaled(previous, _) => previous.retained(),
        }
    }

    /// The resources of the units that are not over, unit by unit.
    pub open spec fn in_use(self) -> Seq<u64>
        decreases self,
    {
        match self {
            Chain::Now => Seq::empty(),
            Chain::Join(a, b) => a.in_use() + b.in_use(),
            Chain::ThenExecute(previous, work) => previous.in_use() + work.in_use(),
            Chain::ThenPresent(previous, work) => previous.in_use() + work.in_use(),
            Chain::Signaled(previous, _) => previous.in_use(),
        }
    }

    /// The resources of the units that are over, unit by unit.
    pub open spec fn releasable(self) -> Seq<u64>
        decreases self,
    {
        match self {
            Chain::Now => Seq::empty(),
            Chain::Join(a, b) => a.releasable() + b.releasable(),
            Chain::ThenExecute(previous, work) => previous.releasable() + work.releasable(),
            Chain::ThenPresent(previous, work) => previous.releasable() + work.releasable(),
            Chain::Signaled(previous, _) => previous.releasable(),
        }
    }

    /// The chain with every unit in state `to` that was in state `from`.
    pub open spec fn moved(self, from: NodeState, to: NodeState) -> Chain
        decreases self,
    {
        match self {
            Chain::Now => Chain::Now,
            Chain::Join(a, b) => Chain::Join(
                Box::new(a.moved(from, to)),
                Box::new(b.moved(from, to)),
            ),
            Chain::ThenExecute(previous, work) => Chain::ThenExecute(
                Box::new(previous.moved(from, to)),
                work.moved(from, to),
            ),
            Chain::ThenPresent(previous, work) => Chain::ThenPresent(
                Box::new(previous.moved(from, to)),
                work.moved(from, to),
            ),
            Chain::Signaled(previous, fence) => Chain::Signaled(
                Box::new(previous.moved(from, to)),
                fence,
            ),
        }
    }

    /// The chain once the driver has taken all of it: what was pending is
    /// flushed.
    pub open spec fn flushed(self) -> Chain {
        self.moved(NodeState::Pending, NodeState::Flushed)
    }

    /// The chain once the driver has refused to take it: what was pending
    /// has failed.
    pub open spec fn failed(self) -> Chain {
        self.moved(NodeState::Pending, NodeState::Errored)
    }

    /// The chain once the driver has finished all that it took: what was
    /// flushed is signaled.
    pub open spec fn completed(self) -> Chain {
        self.moved(NodeState::Flushed, NodeState::Signaled)
    }

    /// The chain once the driver has signaled `fence`: all that went to the
    /// driver under that fence is over.
    pub open spec fn signaled(self, fence: u64) -> Chain
        decreases self,
    {
        match self {
            Chain::Now => Chain::Now,
            Chain::Join(a, b) => Chain::Join(
                Box::new(a.signaled(fence)),
                Box::new(b.signaled(fence)),
            ),
            Chain::ThenExecute(previous, work) => Chain::ThenExecute(
                Box::new(previous.signaled(fence)),
                work,
            ),
            Chain::ThenPresent(previous, work) => Chain::ThenPresent(
                Box::new(previous.signaled(fence)),
                work,
            ),
            Chain::Signaled(previous, own) => if own == fence {
                Chain::Signaled(Box::new(previous.completed()), own)
            } else {
                Chain::Signaled(Box::new(previous.signaled(fence)), own)
            },
        }
    }

    /// The chain with the resources let go of every unit that is over.
    pub open spec fn cleaned(self) -> Chain
        decreases self,
    {
        match self {
            Chain::Now => Chain::Now,
            Chain::Join(a, b) => Chain::Join(Box::new(a.cleaned()), Box::new(b.cleaned())),
            Chain::ThenExecute(previous, work) => Chain::ThenExecute(
                Box::new(previous.cleaned()),
                work.cleaned(),
            ),
            Chain::ThenPresent(previous, work) => Chain::ThenPresent(
                Box::new(previous.cleaned()),
                work.cleaned(),
            ),
            Chain::Signaled(previous, fence) => Chain::Signaled(
                Box::new(previous.cleaned()),
                fence,
            ),
        }
    }
}

impl Chain {
    /// How the submission of the chain ends where it is to signal `fence`
    /// and the driver answers `code`: where the driver refuses, in the
    /// reason and in the chain with all that was pending failed; else in the
    /// chain with all that was pending flushed, under the fence.
    pub open spec fn submission_outcome(self, fence: u64, code: i32) -> Result<
        Chain,
        (FlushError, Chain),
    > {
        match meaning(code) {
            Some(Err(err)) => Err((FlushError::of(err), self.failed())),
            _ => Ok(Chain::Signaled(Box::new(self.flushed()), fence)),
        }
    }
}

impl Chain {
    /// Whether the chain can have come from `earlier` by what the driver
    /// reported and by letting go of resources: it has the same shape, and
    /// each of its units follows the unit in its place.
    pub open spec fn follows(self, earlier: Chain) -> bool
        decreases self,
    {
        match (self, earlier) {
            (Chain::Now, Chain::Now) => true,
            (Chain::Join(a, b), Chain::Join(c, d)) => a.follows(*c) && b.follows(*d),
            (Chain::ThenExecute(previous, work), Chain::ThenExecute(before, was)) => {
                previous.follows(*before) && work.follows(was)
            },
            (Chain::ThenPresent(previous, work), Chain::ThenPresent(before, was)) => {
                previous.follows(*before) && work.follows(was)
            },
            (Chain::Signaled(previous, fence), Chain::Signaled(before, same)) => {
                previous.follows(*before) && fence == same
            },
            _ => false,
        }
    }

    /// Moving units on from one state to a state that it leads to keeps
    /// every unit on its way and with its resources.
    pub proof fn lemma_moved_follows(self, from: NodeState, to: NodeState)
        requires
            from.reaches(to),
        ensures
            self.moved(from, to).follows(self),
        decreases self,
    {
        match self {
            Chain::Now => {},
            Chain::Join(a, b) => {
                a.lemma_moved_follows(from, to);
                b.lemma_moved_follows(from, to);
            },
            Chain::ThenExecute(previous, _) => {
                previous.lemma_moved_follows(from, to);
            },
            Chain::ThenPresent(previous, _) => {
                previous.lemma_moved_follows(from, to);
            },
            Chain::Signaled(previous, _) => {
                previous.lemma_moved_follows(from, to);
            },
        }
    }

    /// Whatever the driver reports, and whenever resources are let go, every
    /// unit of work stays on its way from pending over flushed to signaled
    /// or failed, stays where it is once it is over, and keeps its resources
    /// until then.
    pub proof fn lemma_steps_follow(self, fence: u64)
        ensures
            self.follows(self),
            self.flushed().follows(self),
            self.failed().follows(self),
            self.completed().follows(self),
            self.signaled(fence).follows(self),
            self.cleaned().follows(self),
        decreases self,
    {
        self.lemma_moved_follows(NodeState::Pending, NodeState::Flushed);
        self.lemma_moved_follows(NodeState::Pending, NodeState::Errored);
        self.lemma_moved_follows(NodeState::Flushed, NodeState::Signaled);
        match self {
            Chain::Now => {},
            Chain::Join(a, b) => {
                a.lemma_steps_follow(fence);
                b.lemma_steps_follow(fence);
            },
            Chain::ThenExecute(previous, _) => {
                previous.lemma_steps_follow(fence);
            },
            Chain::ThenPresent(previous, _) => {
                previous.lemma_steps_follow(fence);
            },
            Chain::Signaled(previous, _) => {
                previous.lemma_steps_follow(fence);
            },
        }
    }

    /// Whether every unit of work has waited for what it follows: it has
    /// left the pending state only where all that it follows has left it,
    /// and it is signaled only where all that it follows is over.
    pub open spec fn ordered(self) -> bool
        decreases self,
    {
        match self {
            Chain::Now => true,
            Chain::Join(a, b) => a.ordered() && b.ordered(),
            Chain::ThenExecute(previous, work) => {
                &&& previous.ordered()
                &&& work.state != NodeState::Pending ==> previous.no_pending()
                &&& work.state == NodeState::Signaled ==> previous.all_terminal()
            },
            Chain::ThenPresent(previous, work) => {
                &&& previous.ordered()
                &&& work.state != NodeState::Pending ==> previous.no_pending()
                &&& work.state == NodeState::Signaled ==> previous.all_terminal()
            },
            Chain::Signaled(previous, _) => previous.ordered(),
        }
    }

    /// Whether all that the driver took lies under a fence, and nothing
    /// under a fence is pending: outside of every fence a unit of work is
    /// pending or has failed.
    pub open spec fn fenced(self) -> bool
        decreases self,
    {
        match self {
            Chain::Now => true,
            Chain::Join(a, b) => a.fenced() && b.fenced(),
            Chain::ThenExecute(previous, work) => previous.fenced() && (work.state
                == NodeState::Pending || work.state == NodeState::Errored),
            Chain::ThenPresent(previous, work) => previous.fenced() && (work.state
                == NodeState::Pending || work.state == NodeState::Errored),
            Chain::Signaled(previous, _) => previous.no_pending(),
        }
    }

    /// Whether the chain is one that the operations on chains build: every
    /// unit of work has waited for what it follows, and all that the driver
    /// took lies under a fence.
    pub open spec fn wf(self) -> bool {
        self.ordered() && self.fenced()
    }

    /// Whether `fence` is still to be signaled before all that went to the
    /// driver is over: it guards work that is not over, and no other fence
    /// guards that work from further out.
    pub open spec fn awaits(self, fence: u64) -> bool
        decreases self,
    {
        match self {
            Chain::Now => false,
            Chain::Join(a, b) => a.awaits(fence) || b.awaits(fence),
            Chain::ThenExecute(previous, _) => previous.awaits(fence),
            Chain::ThenPresent(previous, _) => previous.awaits(fence),
            Chain::Signaled(previous, own) => own == fence && !previous.all_terminal(),
        }
    }

    /// The chain once the driver has signaled each of `fences`, one after
    /// the other.
    pub open spec fn after_signals(self, fences: Seq<u64>) -> Chain
        decreases fences.len(),
    {
        if fences.len() == 0 {
            self
        } else {
            self.signaled(fences[0]).after_signals(fences.drop_first())
        }
    }

    /// Letting go of what is over changes no state, keeps the resources of
    /// the work that is not over, and leaves nothing that could be let go:
    /// doing it again changes nothing and lets go of nothing.
    pub proof fn lemma_cleanup_is_idempotent(self)
        ensures
            self.cleaned().cleaned() == self.cleaned(),
            self.cleaned().releasable() == Seq::<u64>::empty(),
            self.cleaned().status() == self.status(),
            self.cleaned().retained() == self.in_use(),
            self.cleaned().in_use() == self.in_use(),
        decreases self,
    {
        match self {
            Chain::Now => {},
            Chain::Join(a, b) => {
                a.lemma_cleanup_is_idempotent();
                b.lemma_cleanup_is_idempotent();
            },
            Chain::ThenExecute(previous, work) => {
                previous.lemma_cleanup_is_idempotent();
            },
            Chain::ThenPresent(previous, work) => {
                previous.lemma_cleanup_is_idempotent();
            },
            Chain::Signaled(previous, _) => {
                previous.lemma_cleanup_is_idempotent();
            },
        }
        assert(self.cleaned().releasable() =~= Seq::<u64>::empty());
        assert(self.cleaned().retained() =~= self.in_use());
        assert(self.cleaned().in_use() =~= self.in_use());
    }

    /// Commands that are to execute after two chains joined are counted as
    /// over only where both chains are over, and the commands too.
    pub proof fn lemma_join_then_execute_is_ordered(a: Chain, b: Chain, work: Work)
        ensures
            Chain::ThenExecute(
                Box::new(Chain::Join(Box::new(a), Box::new(b))),
                work,
            ).status() == NodeState::Signaled <==> a.status() == NodeState::Signaled && b.status()
                == NodeState::Signaled && work.state == NodeState::Signaled,
    {
        let joined = Chain::Join(Box::new(a), Box::new(b));
        assert(joined.status() == a.status().with(b.status()));
        assert(Chain::ThenExecute(Box::new(joined), work).status() == joined.status().with(
            work.state,
        ));
    }

    /// In a chain that counts as over as a whole, nothing is pending and
    /// every unit of work is over.
    pub proof fn lemma_signaled_means_all_over(self)
        requires
            self.status() == NodeState::Signaled,
        ensures
            self.all_terminal(),
            self.no_pending(),
        decreases self,
    {
        match self {
            Chain::Now => {},
            Chain::Join(a, b) => {
                a.lemma_signaled_means_all_over();
                b.lemma_signaled_means_all_over();
            },
            Chain::ThenExecute(previous, _) => {
                previous.lemma_signaled_means_all_over();
            },
            Chain::ThenPresent(previous, _) => {
                previous.lemma_signaled_means_all_over();
            },
            Chain::Signaled(previous, _) => {
                previous.lemma_signaled_means_all_over();
            },
        }
    }

    /// Once a submission has been answered, for better or worse, nothing in
    /// the chain is pending.
    pub proof fn lemma_answered_leaves_none_pending(self, to: NodeState)
        requires
            to != NodeState::Pending,
        ensures
            self.moved(NodeState::Pending, to).no_pending(),
        decreases self,
    {
        match self {
            Chain::Now => {},
            Chain::Join(a, b) => {
                a.lemma_answered_leaves_none_pending(to);
                b.lemma_answered_leaves_none_pending(to);
            },
            Chain::ThenExecute(previous, _) => {
                previous.lemma_answered_leaves_none_pending(to);
            },
            Chain::ThenPresent(previous, _) => {
                previous.lemma_answered_leaves_none_pending(to);
            },
            Chain::Signaled(previous, _) => {
                previous.lemma_answered_leaves_none_pending(to);
            },
        }
    }

    /// Moving units on to a state that is not the pending one makes nothing
    /// pending, and keeps over what is over.
    pub proof fn lemma_moved_keeps_progress(self, from: NodeState, to: NodeState)
        requires
            to != NodeState::Pending,
            !from.terminal(),
        ensures
            self.no_pending() ==> self.moved(from, to).no_pending(),
            self.all_terminal() ==> self.moved(from, to).all_terminal(),
        decreases self,
    {
        match self {
            Chain::Now => {},
            Chain::Join(a, b) => {
                a.lemma_moved_keeps_progress(from, to);
                b.lemma_moved_keeps_progress(from, to);
            },
            Chain::ThenExecute(previous, _) => {
                previous.lemma_moved_keeps_progress(from, to);
            },
            Chain::ThenPresent(previous, _) => {
                previous.lemma_moved_keeps_progress(from, to);
            },
            Chain::Signaled(previous, _) => {
                previous.lemma_moved_keeps_progress(from, to);
            },
        }
    }

    /// Where nothing is pending, all is over once the driver has finished
    /// what it took.
    pub proof fn lemma_completed_is_over(self)
        requires
            self.no_pending(),
        ensures
            self.completed().all_terminal(),
        decreases self,
    {
        match self {
            Chain::Now => {},
            Chain::Join(a, b) => {
                a.lemma_completed_is_over();
                b.lemma_completed_is_over();
            },
            Chain::ThenExecute(previous, _) => {
                previous.lemma_completed_is_over();
            },
            Chain::ThenPresent(previous, _) => {
                previous.lemma_completed_is_over();
            },
            Chain::Signaled(previous, _) => {
                previous.lemma_completed_is_over();
            },
        }
    }

    /// A signaled fence makes nothing pending, keeps over what is over, and
    /// keeps the chain well formed.
    pub proof fn lemma_signaled_keeps_progress(self, fence: u64)
        ensures
            self.no_pending() ==> self.signaled(fence).no_pending(),
            self.all_terminal() ==> self.signaled(fence).all_terminal(),
            self.ordered() ==> self.signaled(fence).ordered(),
            self.fenced() ==> self.signaled(fence).fenced(),
        decreases self,
    {
        match self {
            Chain::Now => {},
            Chain::Join(a, b) => {
                a.lemma_signaled_keeps_progress(fence);
                b.lemma_signaled_keeps_progress(fence);
            },
            Chain::ThenExecute(previous, _) => {
                previous.lemma_signaled_keeps_progress(fence);
            },
            Chain::ThenPresent(previous, _) => {
                previous.lemma_signaled_keeps_progress(fence);
            },
            Chain::Signaled(previous, own) => {
                previous.lemma_signaled_keeps_progress(fence);
                previous.lemma_moved_keeps_progress(NodeState::Flushed, NodeState::Signaled);
                if previous.ordered() {
                    previous.lemma_moved_keeps_order(NodeState::Flushed, NodeState::Signaled);
                }
            },
        }
    }

    /// Moving units on, from pending once the driver has answered or from
    /// flushed once it has finished, keeps every unit behind what it
    /// follows.
    pub proof fn lemma_moved_keeps_order(self, from: NodeState, to: NodeState)
        requires
            self.ordered(),
            from == NodeState::Pending && (to == NodeState::Flushed || to == NodeState::Errored)
                || from == NodeState::Flushed && to == NodeState::Signaled,
        ensures
            self.moved(from, to).ordered(),
        decreases self,
    {
        match self {
            Chain::Now => {},
            Chain::Join(a, b) => {
                a.lemma_moved_keeps_order(from, to);
                b.lemma_moved_keeps_order(from, to);
            },
            Chain::ThenExecute(previous, _) => {
                previous.lemma_moved_keeps_order(from, to);
                previous.lemma_moved_keeps_progress(from, to);
                if from == NodeState::Pending {
                    previous.lemma_answered_leaves_none_pending(to);
                } else {
                    if previous.no_pending() {
                        previous.lemma_completed_is_over();
                    }
                }
            },
            Chain::ThenPresent(previous, _) => {
                previous.lemma_moved_keeps_order(from, to);
                previous.lemma_moved_keeps_progress(from, to);
                if from == NodeState::Pending {
                    previous.lemma_answered_leaves_none_pending(to);
                } else {
                    if previous.no_pending() {
                        previous.lemma_completed_is_over();
                    }
                }
            },
            Chain::Signaled(previous, _) => {
                previous.lemma_moved_keeps_order(from, to);
            },
        }
    }

    /// The operations on chains keep a chain well formed: joining, appending
    /// work, a submission that the driver took or refused, a fence that it
    /// signaled, and letting go of what is over.
    pub proof fn lemma_well_formed_is_kept(self, other: Chain, resources: Seq<u64>, fence: u64)
        requires
            self.wf(),
            other.wf(),
        ensures
            Chain::Now.wf(),
            Chain::Join(Box::new(self), Box::new(other)).wf(),
            Chain::ThenExecute(
                Box::new(self),
                Work { state: NodeState::Pending, resources },
            ).wf(),
            Chain::ThenPresent(
                Box::new(self),
                Work { state: NodeState::Pending, resources },
            ).wf(),
            Chain::Signaled(Box::new(self.flushed()), fence).wf(),
            self.failed().wf(),
            self.signaled(fence).wf(),
            self.cleaned().wf(),
    {
        self.lemma_answered_leaves_none_pending(NodeState::Flushed);
        self.lemma_moved_keeps_order(NodeState::Pending, NodeState::Flushed);
        self.lemma_failed_is_well_formed();
        self.lemma_signaled_keeps_progress(fence);
        self.lemma_cleaned_is_well_formed();
    }

    /// A submission that the driver refused leaves the chain well formed.
    pub proof fn lemma_failed_is_well_formed(self)
        requires
            self.wf(),
        ensures
            self.failed().wf(),
    {
        self.lemma_moved_keeps_order(NodeState::Pending, NodeState::Errored);
        self.lemma_failed_is_fenced();
    }

    /// A submission that the driver refused leaves under a fence all that
    /// the driver took before.
    pub proof fn lemma_failed_is_fenced(self)
        requires
            self.fenced(),
        ensures
            self.failed().fenced(),
        decreases self,
    {
        match self {
            Chain::Now => {},
            Chain::Join(a, b) => {
                a.lemma_failed_is_fenced();
                b.lemma_failed_is_fenced();
            },
            Chain::ThenExecute(previous, _) => {
                previous.lemma_failed_is_fenced();
            },
            Chain::ThenPresent(previous, _) => {
                previous.lemma_failed_is_fenced();
            },
            Chain::Signaled(previous, _) => {
                previous.lemma_answered_leaves_none_pending(NodeState::Errored);
            },
        }
    }

    /// Letting go of what is over changes no state of a unit.
    pub proof fn lemma_cleaned_is_well_formed(self)
        ensures
            self.cleaned().no_pending() == self.no_pending(),
            self.cleaned().all_terminal() == self.all_terminal(),
            self.cleaned().ordered() == self.ordered(),
            self.cleaned().fenced() == self.fenced(),
        decreases self,
    {
        match self {
            Chain::Now => {},
            Chain::Join(a, b) => {
                a.lemma_cleaned_is_well_formed();
                b.lemma_cleaned_is_well_formed();
            },
            Chain::ThenExecute(previous, _) => {
                previous.lemma_cleaned_is_well_formed();
            },
            Chain::ThenPresent(previous, _) => {
                previous.lemma_cleaned_is_well_formed();
            },
            Chain::Signaled(previous, _) => {
                previous.lemma_cleaned_is_well_formed();
            },
        }
    }

    /// In a chain that is well formed, commands that are to execute after
    /// two chains joined are signaled only where all the work of both chains
    /// is over, and have gone to the driver only where all of it has.
    pub proof fn lemma_work_waits_for_join(a: Chain, b: Chain, work: Work)
        requires
            Chain::ThenExecute(Box::new(Chain::Join(Box::new(a), Box::new(b))), work).ordered(),
        ensures
            work.state == NodeState::Signaled ==> a.all_terminal() && b.all_terminal(),
            work.state != NodeState::Pending ==> a.no_pending() && b.no_pending(),
    {
        let joined = Chain::Join(Box::new(a), Box::new(b));
        assert(joined.all_terminal() == (a.all_terminal() && b.all_terminal()));
        assert(joined.no_pending() == (a.no_pending() && b.no_pending()));
    }

    /// A signaled fence is awaited no more, and makes no other fence
    /// awaited.
    pub proof fn lemma_signaled_fence_is_settled(self, fence: u64, other: u64)
        requires
            self.wf(),
            self.signaled(fence).awaits(other),
        ensures
            other != fence,
            self.awaits(other),
        decreases self,
    {
        match self {
            Chain::Now => {},
            Chain::Join(a, b) => {
                if a.signaled(fence).awaits(other) {
                    a.lemma_signaled_fence_is_settled(fence, other);
                } else {
                    b.lemma_signaled_fence_is_settled(fence, other);
                }
            },
            Chain::ThenExecute(previous, _) => {
                previous.lemma_signaled_fence_is_settled(fence, other);
            },
            Chain::ThenPresent(previous, _) => {
                previous.lemma_signaled_fence_is_settled(fence, other);
            },
            Chain::Signaled(previous, own) => {
                if own == fence {
                    previous.lemma_completed_is_over();
                } else {
                    previous.lemma_signaled_keeps_progress(fence);
                }
            },
        }
    }

    /// Where nothing is pending and no fence is awaited, all is over.
    pub proof fn lemma_nothing_awaited_is_over(self)
        requires
            self.wf(),
            self.no_pending(),
            forall|fence: u64| !self.awaits(fence),
        ensures
            self.all_terminal(),
        decreases self,
    {
        match self {
            Chain::Now => {},
            Chain::Join(a, b) => {
                assert forall|fence: u64| !a.awaits(fence) by {
                    assert(!self.awaits(fence));
                }
                assert forall|fence: u64| !b.awaits(fence) by {
                    assert(!self.awaits(fence));
                }
                a.lemma_nothing_awaited_is_over();
                b.lemma_nothing_awaited_is_over();
            },
            Chain::ThenExecute(previous, _) => {
                assert forall|fence: u64| !previous.awaits(fence) by {
                    assert(!self.awaits(fence));
                }
                previous.lemma_nothing_awaited_is_over();
            },
            Chain::ThenPresent(previous, _) => {
                assert forall|fence: u64| !previous.awaits(fence) by {
                    assert(!self.awaits(fence));
                }
                previous.lemma_nothing_awaited_is_over();
            },
            Chain::Signaled(previous, own) => {
                assert(!self.awaits(own));
            },
        }
    }

    /// Where all is over, every resource can be let go, and letting go
    /// leaves none.
    pub proof fn lemma_over_releases_all(self)
        requires
            self.all_terminal(),
        ensures
            self.releasable() == self.retained(),
            self.in_use() == Seq::<u64>::empty(),
            self.cleaned().retained() == Seq::<u64>::empty(),
        decreases self,
    {
        match self {
            Chain::Now => {},
            Chain::Join(a, b) => {
                a.lemma_over_releases_all();
                b.lemma_over_releases_all();
            },
            Chain::ThenExecute(previous, _) => {
                previous.lemma_over_releases_all();
            },
            Chain::ThenPresent(previous, _) => {
                previous.lemma_over_releases_all();
            },
            Chain::Signaled(previous, _) => {
                previous.lemma_over_releases_all();
            },
        }
        assert(self.releasable() =~= self.retained());
        assert(self.in_use() =~= Seq::<u64>::empty());
        assert(self.cleaned().retained() =~= Seq::<u64>::empty());
    }

    /// Where nothing is pending, all is over once the driver has signaled
    /// every fence that is awaited, in whatever order and among whatever
    /// other fences; and then letting go leaves no resource.
    pub proof fn lemma_settles(self, fences: Seq<u64>)
        requires
            self.wf(),
            self.no_pending(),
            forall|fence: u64| #[trigger] self.awaits(fence) ==> fences.contains(fence),
        ensures
            self.after_signals(fences).all_terminal(),
            self.after_signals(fences).cleaned().retained() == Seq::<u64>::empty(),
            self.after_signals(fences).releasable() == self.after_signals(fences).retained(),
        decreases fences.len(),
    {
        if fences.len() == 0 {
            assert forall|fence: u64| !self.awaits(fence) by {
                if self.awaits(fence) {
                    assert(fences.contains(fence));
                }
            }
            self.lemma_nothing_awaited_is_over();
        } else {
            let next = self.signaled(fences[0]);
            let rest = fences.drop_first();
            self.lemma_signaled_keeps_progress(fences[0]);
            assert forall|fence: u64| #[trigger] next.awaits(fence) implies rest.contains(
                fence,
            ) by {
                self.lemma_signaled_fence_is_settled(fences[0], fence);
                assert(fences.contains(fence));
                let i = choose|i: int| 0 <= i < fences.len() && fences[i] == fence;
                assert(i != 0);
                assert(rest[i - 1] == fence);
            }
            next.lemma_settles(rest);
        }
        self.after_signals(fences).lemma_over_releases_all();
    }

    /// A stale swapchain can be recovered from. The submission that the
    /// driver refuses as out of date fails with that reason and leaves none
    /// of the work of its chain pending; once the driver has signaled the
    /// fences that are awaited from before, all of that work is over, and
    /// letting go then leaves no resource in the chain. Whatever has become
    /// of that chain, the driver decides alone on the chain that is
    /// submitted next, on the new swapchain: where it takes it, all of it is
    /// flushed under its fence.
    pub proof fn lemma_stale_swapchain_is_recoverable(
        self,
        fence: u64,
        code: i32,
        fences: Seq<u64>,
        next: Chain,
        next_fence: u64,
        next_code: i32,
    )
        requires
            self.wf(),
            next.wf(),
            meaning(code) == Some(Err::<Success, _>(Error::OutOfDate)),
            meaning(next_code) matches Some(Ok(_)),
            forall|fence: u64| #[trigger] self.failed().awaits(fence) ==> fences.contains(fence),
        ensures
            self.submission_outcome(fence, code) == Err::<Chain, _>(
                (FlushError::OutOfDate, self.failed()),
            ),
            self.failed().no_pending(),
            self.failed().after_signals(fences).all_terminal(),
            self.failed().after_signals(fences).cleaned().retained() == Seq::<u64>::empty(),
            next.submission_outcome(next_fence, next_code) == Ok::<_, (FlushError, Chain)>(
                Chain::Signaled(Box::new(next.flushed()), next_fence),
            ),
            Chain::Signaled(Box::new(next.flushed()), next_fence).wf(),
            Chain::Signaled(Box::new(next.flushed()), next_fence).no_pending(),
    {
        self.lemma_refused_submission_settles(fences);
        next.lemma_answered_leaves_none_pending(NodeState::Flushed);
        next.lemma_moved_keeps_order(NodeState::Pending, NodeState::Flushed);
    }

    /// A submission that the driver refused leaks nothing. None of the work
    /// of the chain is pending any more; once the driver has signaled the
    /// fences that are awaited from before, all of it is over, and
    /// letting go then leaves no resource in the chain.
    pub proof fn lemma_refused_submission_settles(self, fences: Seq<u64>)
        requires
            self.wf(),
            forall|fence: u64| #[trigger] self.failed().awaits(fence) ==> fences.contains(fence),
        ensures
            self.failed().no_pending(),
            self.failed().after_signals(fences).all_terminal(),
            self.failed().after_signals(fences).cleaned().retained() == Seq::<u64>::empty(),
    {
        self.lemma_answered_leaves_none_pending(NodeState::Errored);
        self.lemma_failed_is_well_formed();
        self.failed().lemma_settles(fences);
    }
}

} // verus!

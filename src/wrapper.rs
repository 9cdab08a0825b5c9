use std::collections::TryReserveError;
use std::sync::Arc;

use vstd::prelude::*;
use vstd::string::StringSliceAdditionalSpecFns;

use crate::node::{
    do_work_locked, node_payload, BinderError, DeliveryState, Node, NodeInner, UserSliceWriter,
};
use crate::seq_file::{debug_line, print_node_work, SeqFile};

verus! {

/// A reader thread that may be handed queued work.
#[derive(Debug, Clone, Copy, PartialEq, Eq, Structural)]
pub struct Thread {
    pub id: usize,
}

/// A notification that a tracked object's strong count went from zero to one.
/// It holds a shared handle to the object and nothing else.
#[derive(Debug)]
pub struct NodeWrapper {
    node: Arc<Node>,
}

impl NodeWrapper {
    /// The tracked object this notification is about.
    pub closed spec fn node(&self) -> Node {
        *self.node
    }

    /// Delivers the notification to a reader. `inner` is the object's locked state:
    /// holding it is holding the owner's lock for the whole call. Both guard flags
    /// must be up; they are cleared, and the object's locked work routine then
    /// writes the payload, whose result is returned as it is.
    pub fn do_work(self, _thread: &Thread, inner: &mut NodeInner, writer: &mut UserSliceWriter) -> (r:
        Result<bool, BinderError>)
        requires
            old(inner).belongs_to(self.node()),
            old(inner).delivery_state.is_pending(),
        ensures
            final(inner).node_id == old(inner).node_id,
            final(inner).delivery_state == old(inner).delivery_state.cleared(),
            final(writer).capacity == old(writer).capacity,
            r is Ok <==> old(writer).room() >= 16,
            r is Ok ==> r == Ok::<bool, BinderError>(true) && final(writer).data@ == old(
                writer,
            ).data@ + node_payload(self.node()),
            r is Err ==> r == Err::<bool, BinderError>(BinderError::Fault) && final(writer).data@
                == old(writer).data@,
    {
        inner.delivery_state.take_pending();
        do_work_locked(&self.node, inner, writer)
    }

    /// Called when the notification is dropped undelivered: nothing to undo.
    pub fn cancel(self) {
    }

    /// Called when a reader thread is picked for this notification: nothing to record.
    pub fn on_thread_selected(&self, _thread: &Thread) {
    }

    /// This notification never asks for a synchronous wake-up.
    pub fn should_sync_wakeup(&self) -> (r: bool)
        ensures
            !r,
    {
        false
    }

    /// Appends the notification's diagnostic line to `m`.
    pub fn debug_print(&self, m: &mut SeqFile, prefix: &str, _tprefix: &str) -> (r: Result<
        (),
        BinderError,
    >)
        ensures
            r is Ok,
            final(m).buf@ == old(m).buf@ + debug_line(prefix.spec_bytes(), self.node()),
    {
        print_node_work(m, prefix, &self.node);
        Ok(())
    }
}

/// Storage reserved for one notification, taken before any lock is held.
#[derive(Debug)]
pub struct CritIncrWrapper {
    inner: Vec<NodeWrapper>,
}

impl CritIncrWrapper {
    #[verifier::type_invariant]
    spec fn reserved_and_empty(&self) -> bool {
        self.inner@.len() == 0
    }

    /// Reserves the storage for one notification. Fails with `AllocError` where the
    /// allocation fails; nothing else is touched either way.
    pub fn new() -> (r: Result<CritIncrWrapper, BinderError>)
        ensures
            r is Err ==> r == Err::<CritIncrWrapper, BinderError>(BinderError::AllocError),
    {
        let mut slot: Vec<NodeWrapper> = Vec::new();
        let outcome = slot.try_reserve(1);
        Self::from_reservation(slot, outcome)
    }

    /// Makes a reservation of `slot` once the allocator has answered with `outcome`
    /// for room for one notification in it.
    pub fn from_reservation(slot: Vec<NodeWrapper>, outcome: Result<(), TryReserveError>) -> (r:
        Result<CritIncrWrapper, BinderError>)
        requires
            slot@.len() == 0,
        ensures
            r is Ok <==> outcome is Ok,
            r is Err ==> r == Err::<CritIncrWrapper, BinderError>(BinderError::AllocError),
    {
        match outcome {
            Ok(()) => Ok(CritIncrWrapper { inner: slot }),
            Err(_) => Err(BinderError::AllocError),
        }
    }

    /// Fills the reservation with a notification about `node` and hands it out as
    /// queueable work. Allocates nothing and cannot fail.
    pub fn init(self, node: Arc<Node>) -> (r: DeliverableWork)
        ensures
            r.node() == *node,
    {
        proof {
            use_type_invariant(&self);
        }
        let mut slot = self.inner;
        slot.push(NodeWrapper { node });
        DeliverableWork { inner: slot }
    }
}

/// A notification ready to be queued for a reader: the one item of the storage that
/// was reserved for it.
#[derive(Debug)]
pub struct DeliverableWork {
    inner: Vec<NodeWrapper>,
}

impl DeliverableWork {
    #[verifier::type_invariant]
    spec fn holds_one(&self) -> bool {
        self.inner@.len() == 1
    }

    /// The tracked object the queued notification is about.
    pub closed spec fn node(&self) -> Node {
        self.inner@[0].node()
    }

    /// The queued notification.
    pub fn wrapper(&self) -> (r: &NodeWrapper)
        ensures
            r.node() == self.node(),
    {
        proof {
            use_type_invariant(self);
        }
        &self.inner[0]
    }

    /// Takes the notification out of the queue entry.
    pub fn into_wrapper(self) -> (r: NodeWrapper)
        ensures
            r.node() == self.node(),
    {
        proof {
            use_type_invariant(&self);
        }
        let mut slot = self.inner;
        slot.pop().unwrap()
    }

    /// Delivers the queued notification: see `NodeWrapper::do_work`.
    pub fn do_work(self, thread: &Thread, inner: &mut NodeInner, writer: &mut UserSliceWriter) -> (r:
        Result<bool, BinderError>)
        requires
            old(inner).belongs_to(self.node()),
            old(inner).delivery_state.is_pending(),
        ensures
            final(inner).node_id == old(inner).node_id,
            final(inner).delivery_state == old(inner).delivery_state.cleared(),
            final(writer).capacity == old(writer).capacity,
            r is Ok <==> old(writer).room() >= 16,
            r is Ok ==> r == Ok::<bool, BinderError>(true) && final(writer).data@ == old(
                writer,
            ).data@ + node_payload(self.node()),
            r is Err ==> r == Err::<bool, BinderError>(BinderError::Fault) && final(writer).data@
                == old(writer).data@,
    {
        self.into_wrapper().do_work(thread, inner, writer)
    }

    /// Drops the queued notification undelivered.
    pub fn cancel(self) {
        self.into_wrapper().cancel()
    }

    /// Whether waking the reader for this work should be synchronous: never.
    pub fn should_sync_wakeup(&self) -> (r: bool)
        ensures
            !r,
    {
        self.wrapper().should_sync_wakeup()
    }

    /// Appends the diagnostic line of the queued notification to `m`.
    pub fn debug_print(&self, m: &mut SeqFile, prefix: &str, tprefix: &str) -> (r: Result<
        (),
        BinderError,
    >)
        ensures
            r is Ok,
            final(m).buf@ == old(m).buf@ + debug_line(prefix.spec_bytes(), self.node()),
    {
        self.wrapper().debug_print(m, prefix, tprefix)
    }
}

/// Under the object's lock, raises both guard flags and fills the reservation with
/// the notification that goes with them, so that no other holder of the lock sees
/// one without the other. The object must have no notification pending.
pub fn push_crit_incr(inner: &mut NodeInner, holder: CritIncrWrapper, node: Arc<Node>) -> (r:
    DeliverableWork)
    requires
        old(inner).belongs_to(*node),
        old(inner).delivery_state.is_idle(),
    ensures
        final(inner).node_id == old(inner).node_id,
        final(inner).delivery_state == old(inner).delivery_state.armed(),
        r.node() == *node,
{
    inner.delivery_state.has_strong_zero2one = true;
    inner.delivery_state.has_pushed_wrapper = true;
    holder.init(node)
}

/// One trigger, one delivery: on an object with both guard flags down, raising them
/// together with a notification (`push_crit_incr`) makes that notification
/// deliverable, and its delivery (`do_work`) takes both flags down again, after which
/// no further delivery is admitted until the next trigger.
pub proof fn lemma_one_delivery_per_trigger(s: DeliveryState)
    requires
        s.is_idle(),
    ensures
        s.armed().is_pending(),
        s.armed().cleared().is_idle(),
        !s.armed().cleared().is_pending(),
        !s.armed().cleared().has_pushed_wrapper,
        !s.armed().cleared().has_strong_zero2one,
{
}

/// A delivery is admitted only where both guard flags are up: with either one down,
/// `do_work` cannot be called, and `take_pending` stops the caller.
pub proof fn lemma_delivery_needs_both_flags(s: DeliveryState)
    requires
        !s.has_pushed_wrapper || !s.has_strong_zero2one,
    ensures
        !s.is_pending(),
{
}

/// Re-arming repeats itself: after one trigger and its delivery the object is back in
/// the state it started from, so a second trigger and delivery pass through the same
/// states as the first.
pub proof fn lemma_rearm_repeats(s: DeliveryState)
    requires
        s.is_idle(),
    ensures
        s.armed().cleared() == s,
        s.armed().cleared().armed() == s.armed(),
        s.armed().cleared().armed().cleared() == s.armed().cleared(),
{
}

} // verus!

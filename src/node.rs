use vstd::prelude::*;

verus! {

/// Errors that the notification protocol hands back to its caller.
#[derive(Debug, Clone, Copy, PartialEq, Eq, Structural)]
pub enum BinderError {
    /// The reservation for a notification could not be allocated.
    AllocError,
    /// The reader's output buffer could not take the payload.
    Fault,
}

/// The two guard flags of a tracked object.
#[derive(Debug, Clone, Copy, PartialEq, Eq, Structural)]
pub struct DeliveryState {
    /// A notification for this object is enqueued somewhere.
    pub has_pushed_wrapper: bool,
    /// The zero-to-one transition of the strong count happened and is not yet reported.
    pub has_strong_zero2one: bool,
}

impl DeliveryState {
    /// Neither a notification nor a pending transition.
    pub open spec fn is_idle(self) -> bool {
        !self.has_pushed_wrapper && !self.has_strong_zero2one
    }

    /// A notification is enqueued for a transition that has happened: the only state
    /// in which that notification may be delivered.
    pub open spec fn is_pending(self) -> bool {
        self.has_pushed_wrapper && self.has_strong_zero2one
    }

    /// The state after the trigger is set and the notification enqueued.
    pub open spec fn armed(self) -> DeliveryState {
        DeliveryState { has_pushed_wrapper: true, has_strong_zero2one: true }
    }

    /// The state after a delivery has consumed the notification.
    pub open spec fn cleared(self) -> DeliveryState {
        DeliveryState { has_pushed_wrapper: false, has_strong_zero2one: false }
    }

    /// A fresh object: no notification and no pending transition.
    pub fn new() -> (r: DeliveryState)
        ensures
            r.is_idle(),
    {
        DeliveryState { has_pushed_wrapper: false, has_strong_zero2one: false }
    }

    /// Whether a notification may be delivered now; a delivery in any other state
    /// is a protocol bug.
    pub fn is_ready_for_delivery(&self) -> (r: bool)
        ensures
            r == self.is_pending(),
    {
        self.has_pushed_wrapper && self.has_strong_zero2one
    }

    /// Takes down both flags of a pending notification. A delivery in any other
    /// state is a protocol bug; a caller that reaches one anyway stops here.
    pub fn take_pending(&mut self)
        requires
            old(self).is_pending(),
        ensures
            *final(self) == old(self).cleared(),
    {
        let pending: Option<()> = if self.is_ready_for_delivery() {
            Some(())
        } else {
            None
        };
        pending.expect("notification delivered without its trigger");
        self.has_pushed_wrapper = false;
        self.has_strong_zero2one = false;
    }
}

/// The identity of a tracked object, shared by every handle to it and never
/// changed after creation.
#[derive(Debug, Clone, Copy, PartialEq, Eq, Structural)]
pub struct Node {
    /// The number by which diagnostics name the object.
    pub debug_id: usize,
    /// The user-space pointer value that stands for the object.
    pub ptr: u64,
    /// The cookie that user space associated with the object.
    pub cookie: u64,
}

/// The part of a tracked object that its owner's lock protects. A `&mut NodeInner`
/// is held only under that lock, so exclusive access here is the lock being held.
#[derive(Debug, Clone, Copy, PartialEq, Eq, Structural)]
pub struct NodeInner {
    /// The `debug_id` of the object this state belongs to.
    pub node_id: usize,
    pub delivery_state: DeliveryState,
}

impl NodeInner {
    /// The locked state of a fresh object, with both guard flags down.
    pub fn new(node: &Node) -> (r: NodeInner)
        ensures
            r.node_id == node.debug_id,
            r.delivery_state.is_idle(),
    {
        NodeInner { node_id: node.debug_id, delivery_state: DeliveryState::new() }
    }

    /// Whether this state belongs to `node`.
    pub open spec fn belongs_to(self, node: Node) -> bool {
        self.node_id == node.debug_id
    }
}

/// The little-endian bytes of `v`.
pub open spec fn le_bytes(v: u64) -> Seq<u8> {
    Seq::new(8, |i: int| ((v >> (8 * i) as u64) & 255) as u8)
}

/// What the object's locked work routine writes for the reader: the object's
/// pointer value, then its cookie.
pub open spec fn node_payload(node: Node) -> Seq<u8> {
    le_bytes(node.ptr) + le_bytes(node.cookie)
}

/// A reader's output buffer: the bytes written so far and how many it can hold.
#[derive(Debug)]
pub struct UserSliceWriter {
    pub data: Vec<u8>,
    pub capacity: usize,
}

impl UserSliceWriter {
    /// How many more bytes the buffer takes.
    pub open spec fn room(&self) -> int {
        self.capacity - self.data@.len()
    }

    /// An empty buffer that takes `capacity` bytes.
    pub fn new(capacity: usize) -> (r: UserSliceWriter)
        ensures
            r.data@.len() == 0,
            r.capacity == capacity,
    {
        UserSliceWriter { data: Vec::new(), capacity }
    }

    fn push_le(&mut self, v: u64)
        ensures
            final(self).data@ == old(self).data@ + le_bytes(v),
            final(self).capacity == old(self).capacity,
    {
        let ghost start = self.data@;
        let mut i: u64 = 0;
        while i < 8
            invariant
                i <= 8,
                self.capacity == old(self).capacity,
                self.data@ == start + le_bytes(v).take(i as int),
            decreases 8 - i,
        {
            let b: u8 = ((v >> (8 * i)) & 255) as u8;
            self.data.push(b);
            assert(le_bytes(v).take(i as int + 1) =~= le_bytes(v).take(i as int).push(b));
            i = i + 1;
        }
        assert(le_bytes(v).take(8) =~= le_bytes(v));
    }

    /// Writes the little-endian bytes of `a` and then of `b`, all or nothing: fails
    /// with `Fault`, leaving the buffer as it was, where the sixteen bytes do not fit.
    pub fn write_u64_pair(&mut self, a: u64, b: u64) -> (r: Result<(), BinderError>)
        ensures
            final(self).capacity == old(self).capacity,
            r is Ok <==> old(self).room() >= 16,
            r is Ok ==> final(self).data@ == old(self).data@ + le_bytes(a) + le_bytes(b),
            r is Err ==> r == Err::<(), BinderError>(BinderError::Fault) && final(self).data@
                == old(self).data@,
    {
        if self.data.len() > self.capacity || self.capacity - self.data.len() < 16 {
            return Err(BinderError::Fault);
        }
        self.push_le(a);
        self.push_le(b);
        Ok(())
    }
}

/// The object's own locked work routine, run with its owner's lock held: writes the
/// object's pointer value and cookie for the reader and asks it to go on. Fails with
/// `Fault`, writing nothing, where the buffer cannot take them. The guard flags are
/// not touched here.
pub fn do_work_locked(node: &Node, inner: &mut NodeInner, writer: &mut UserSliceWriter) -> (r:
    Result<bool, BinderError>)
    ensures
        *final(inner) == *old(inner),
        final(writer).capacity == old(writer).capacity,
        r is Ok <==> old(writer).room() >= 16,
        r is Ok ==> r == Ok::<bool, BinderError>(true) && final(writer).data@ == old(writer).data@
            + node_payload(*node),
        r is Err ==> r == Err::<bool, BinderError>(BinderError::Fault) && final(writer).data@
            == old(writer).data@,
{
    match writer.write_u64_pair(node.ptr, node.cookie) {
        Ok(()) => Ok(true),
        Err(e) => Err(e),
    }
}

} // verus!

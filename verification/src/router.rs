//! The event router: a bounded inbound work queue and a lossy outbound
//! broadcast registry.
//!
//! The inbound queue decouples the connection handlers (many producers)
//! from the game loop (single consumer).  Its backpressure policy: a send
//! onto a full queue fails, and the caller tears down the producing
//! connection — one slow or misbehaving client never blocks the queue for
//! the others.
//!
//! The broadcast side is a registry of per-subscriber bounded buffers, each
//! with its own read cursor (the buffer front).  Lag policy: publishing to
//! a full buffer drops that buffer's oldest entry and keeps the newest —
//! a deliberate lossy broadcast, since movement messages are superseded by
//! later ones.  A slow subscriber skips stale messages; it is never
//! disconnected for lagging and never blocks the publisher.

use vstd::prelude::*;
use crate::wire::Message;

verus! {

/// Why a send onto the inbound queue failed.
#[derive(Clone, Copy, PartialEq, Eq, Structural, Debug)]
pub enum SendError {
    /// The queue already holds `capacity` messages.
    Full,
}

/// The bounded many-producer, single-consumer inbound queue.
pub struct InboundQueue {
    items: Vec<Message>,
    capacity: usize,
}

impl View for InboundQueue {
    type V = Seq<Message>;

    /// The queued messages, oldest first.
    closed spec fn view(&self) -> Seq<Message> {
        self.items@
    }
}

impl InboundQueue {
    /// The fixed capacity the queue was created with.
    pub closed spec fn cap(self) -> int {
        self.capacity as int
    }

    /// Well-formedness: the queue never holds more than its capacity.
    pub open spec fn wf(self) -> bool {
        &&& self.cap() >= 1
        &&& self@.len() <= self.cap()
    }

    /// Create an empty queue with the given capacity.
    pub fn new(capacity: usize) -> (q: InboundQueue)
        requires
            capacity >= 1,
        ensures
            q@ == Seq::<Message>::empty(),
            q.cap() == capacity,
            q.wf(),
    {
        let q = InboundQueue { items: Vec::new(), capacity };
        assert(q@ =~= Seq::<Message>::empty());
        q
    }

    /// Enqueue a message.  Fails, leaving the queue unchanged, exactly
    /// when the queue is full: the producing connection is then torn down.
    pub fn send(&mut self, m: Message) -> (r: Result<(), SendError>)
        requires
            old(self).wf(),
        ensures
            final(self).wf(),
            final(self).cap() == old(self).cap(),
            old(self)@.len() < old(self).cap() ==> r is Ok && final(self)@ == old(self)@.push(m),
            old(self)@.len() >= old(self).cap() ==> r == Err::<(), SendError>(SendError::Full)
                && final(self)@ == old(self)@,
    {
        if self.items.len() < self.capacity {
            self.items.push(m);
            Ok(())
        } else {
            Err(SendError::Full)
        }
    }

    /// Dequeue the oldest message, if any.
    pub fn recv(&mut self) -> (r: Option<Message>)
        requires
            old(self).wf(),
        ensures
            final(self).wf(),
            final(self).cap() == old(self).cap(),
            old(self)@.len() == 0 ==> r is None && final(self)@ == old(self)@,
            old(self)@.len() > 0 ==> r == Some(old(self)@[0]) && final(self)@ == old(self)@.skip(
                1,
            ),
    {
        if self.items.len() == 0 {
            None
        } else {
            let m = self.items.remove(0);
            assert(self@ =~= old(self)@.skip(1));
            Some(m)
        }
    }

    /// Number of queued messages.
    pub fn len(&self) -> (n: usize)
        ensures
            n == self@.len(),
    {
        self.items.len()
    }
}

/// One subscriber's buffer after a publish: the message is appended; if
/// the buffer was full, its oldest entry is dropped to make room.
pub open spec fn spec_lag_push(q: Seq<Message>, m: Message, cap: int) -> Seq<Message> {
    if q.len() < cap {
        q.push(m)
    } else {
        q.skip(1).push(m)
    }
}

/// Whether a subscription slot is live and holds at least one message.
pub open spec fn spec_live_nonempty(subs: Seq<Option<Seq<Message>>>, sid: int) -> bool {
    &&& 0 <= sid < subs.len()
    &&& subs[sid] is Some
    &&& subs[sid]->Some_0.len() > 0
}

/// The whole registry after a publish: every live subscription receives
/// the message under the lag policy; unregistered slots stay empty.
pub open spec fn spec_publish(
    subs: Seq<Option<Seq<Message>>>,
    m: Message,
    cap: int,
) -> Seq<Option<Seq<Message>>> {
    subs.map_values(
        |o: Option<Seq<Message>>|
            match o {
                Some(q) => Some(spec_lag_push(q, m, cap)),
                None => None,
            },
    )
}

/// Append under the lag policy: drop the oldest entry first if the buffer
/// is full.
fn lag_push_buf(buf: &mut Vec<Message>, m: Message, cap: usize)
    requires
        cap >= 1,
        old(buf)@.len() <= cap,
    ensures
        final(buf)@ == spec_lag_push(old(buf)@, m, cap as int),
        final(buf)@.len() <= cap,
{
    if buf.len() >= cap {
        buf.remove(0);
        assert(buf@ =~= old(buf)@.skip(1));
    }
    buf.push(m);
}

/// Take the oldest entry of a buffer, if any.
fn pop_front_buf(buf: &mut Vec<Message>) -> (r: Option<Message>)
    ensures
        old(buf)@.len() == 0 ==> r is None && final(buf)@ == old(buf)@,
        old(buf)@.len() > 0 ==> r == Some(old(buf)@[0]) && final(buf)@ == old(buf)@.skip(1),
{
    if buf.len() == 0 {
        None
    } else {
        let m = buf.remove(0);
        assert(buf@ =~= old(buf)@.skip(1));
        Some(m)
    }
}

/// The outbound broadcast: a registry of per-subscriber bounded buffers.
/// A subscription is named by the index it was assigned at registration;
/// indices are never reused, and an unregistered slot stays `None`.
pub struct Broadcast {
    subs: Vec<Option<Vec<Message>>>,
    capacity: usize,
}

impl View for Broadcast {
    type V = Seq<Option<Seq<Message>>>;

    /// Each subscription slot: `Some` buffered messages (oldest first) for
    /// a live subscriber, `None` for an unregistered one.
    closed spec fn view(&self) -> Seq<Option<Seq<Message>>> {
        self.subs@.map_values(
            |o: Option<Vec<Message>>|
                match o {
                    Some(v) => Some(v@),
                    None => None,
                },
        )
    }
}

impl Broadcast {
    /// The per-subscriber buffer capacity the registry was created with.
    pub closed spec fn cap(self) -> int {
        self.capacity as int
    }

    /// Well-formedness: no live buffer ever exceeds the capacity.
    pub open spec fn wf(self) -> bool {
        &&& self.cap() >= 1
        &&& forall|i: int|
            0 <= i < self@.len() && self@[i] is Some ==> (#[trigger] self@[i])->Some_0.len()
                <= self.cap()
    }

    /// Create a registry with no subscribers.
    pub fn new(capacity: usize) -> (b: Broadcast)
        requires
            capacity >= 1,
        ensures
            b@ == Seq::<Option<Seq<Message>>>::empty(),
            b.cap() == capacity,
            b.wf(),
    {
        let b = Broadcast { subs: Vec::new(), capacity };
        assert(b@ =~= Seq::<Option<Seq<Message>>>::empty());
        b
    }

    /// Register a new subscriber with an empty buffer; its slot index
    /// names the subscription from then on.
    pub fn subscribe(&mut self) -> (sid: usize)
        requires
            old(self).wf(),
        ensures
            final(self).wf(),
            final(self).cap() == old(self).cap(),
            sid == old(self)@.len(),
            final(self)@ == old(self)@.push(Some(Seq::<Message>::empty())),
    {
        let sid = self.subs.len();
        self.subs.push(Some(Vec::new()));
        assert(self@ =~= old(self)@.push(Some(Seq::<Message>::empty())));
        sid
    }

    /// Unregister a subscription.  Its slot is cleared and never reused;
    /// every other subscription is untouched.  Unknown or already-cleared
    /// slots are left as they are.
    pub fn unsubscribe(&mut self, sid: usize)
        requires
            old(self).wf(),
        ensures
            final(self).wf(),
            final(self).cap() == old(self).cap(),
            final(self)@.len() == old(self)@.len(),
            sid < old(self)@.len() ==> final(self)@ == old(self)@.update(
                sid as int,
                None::<Seq<Message>>,
            ),
            sid >= old(self)@.len() ==> final(self)@ == old(self)@,
    {
        if sid < self.subs.len() {
            self.subs[sid] = None;
            assert(self@ =~= old(self)@.update(sid as int, None::<Seq<Message>>));
        }
    }

    /// Deliver a message to every live subscription under the lag policy:
    /// append it, dropping that buffer's oldest entry if it is full.
    pub fn publish(&mut self, m: Message)
        requires
            old(self).wf(),
        ensures
            final(self).wf(),
            final(self).cap() == old(self).cap(),
            final(self)@ == spec_publish(old(self)@, m, old(self).cap()),
    {
        let n = self.subs.len();
        let mut i: usize = 0;
        while i < n
            invariant
                n == self.subs@.len(),
                n == self@.len(),
                n == old(self)@.len(),
                i <= n,
                self.capacity == old(self).capacity,
                old(self).wf(),
                forall|j: int|
                    0 <= j < i ==> #[trigger] self@[j] == spec_publish(
                        old(self)@,
                        m,
                        old(self).cap(),
                    )[j],
                forall|j: int| i <= j < n ==> #[trigger] self@[j] == old(self)@[j],
            decreases n - i,
        {
            let cap = self.capacity;
            proof {
                assert(self@[i as int] == old(self)@[i as int]);
                if self@[i as int] is Some {
                    assert(self@[i as int]->Some_0.len() <= cap);
                }
                assert(self@[i as int] == match self.subs@[i as int] {
                    Some(v) => Some(v@),
                    None => None,
                });
            }
            let ghost pre_subs = self.subs@;
            let ghost pre_view = self@;
            match &mut self.subs[i] {
                Some(buf) => {
                    lag_push_buf(buf, m, cap);
                },
                None => {},
            }
            proof {
                assert(self.subs@ == pre_subs.update(i as int, self.subs@[i as int]));
                assert forall|j: int| 0 <= j < n && j != i implies self@[j] == pre_view[j] by {
                    assert(self.subs@[j] == pre_subs[j]);
                }
                assert(self@[i as int] == match pre_view[i as int] {
                    Some(q) => Some(spec_lag_push(q, m, cap as int)),
                    None => None,
                });
                assert(cap as int == old(self).cap());
                assert forall|j: int| 0 <= j < i + 1 implies self@[j] == spec_publish(
                    old(self)@,
                    m,
                    old(self).cap(),
                )[j] by {
                    assert(spec_publish(old(self)@, m, old(self).cap())[j] == match old(
                        self,
                    )@[j] {
                        Some(q) => Some(spec_lag_push(q, m, old(self).cap())),
                        None => None,
                    });
                    if j != i as int {
                        assert(self@[j] == pre_view[j]);
                    } else {
                        assert(pre_view[j] == old(self)@[j]);
                    }
                }
                assert forall|j: int| i + 1 <= j < n implies self@[j] == old(self)@[j] by {
                    assert(self@[j] == pre_view[j]);
                    assert(pre_view[j] == old(self)@[j]);
                }
            }
            i += 1;
        }
        assert(self@ =~= spec_publish(old(self)@, m, old(self).cap()));
    }

    /// Take the oldest buffered message of one subscription, if the slot
    /// is live and non-empty.  Every other subscription is untouched.
    pub fn recv(&mut self, sid: usize) -> (r: Option<Message>)
        requires
            old(self).wf(),
        ensures
            final(self).wf(),
            final(self).cap() == old(self).cap(),
            final(self)@.len() == old(self)@.len(),
            spec_live_nonempty(old(self)@, sid as int) ==> (r == Some(
                old(self)@[sid as int]->Some_0[0],
            ) && final(self)@ == old(self)@.update(
                sid as int,
                Some(old(self)@[sid as int]->Some_0.skip(1)),
            )),
            !spec_live_nonempty(old(self)@, sid as int) ==> (r is None && final(self)@ == old(
                self,
            )@),
    {
        if sid >= self.subs.len() {
            return None;
        }
        let r = match &mut self.subs[sid] {
            Some(buf) => pop_front_buf(buf),
            None => None,
        };
        proof {
            if spec_live_nonempty(old(self)@, sid as int) {
                assert(self@ =~= old(self)@.update(
                    sid as int,
                    Some(old(self)@[sid as int]->Some_0.skip(1)),
                ));
            } else {
                assert(self@ =~= old(self)@);
            }
        }
        r
    }

    /// Number of subscription slots ever registered (live or cleared).
    pub fn num_slots(&self) -> (n: usize)
        ensures
            n == self@.len(),
    {
        self.subs.len()
    }
}

} // verus!

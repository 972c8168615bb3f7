//! Notifications and the router's inbound queue.
//!
//! A notification is an ephemeral trace or alert bound for the messaging
//! endpoint. The router owns a bounded first-in-first-out queue: producers
//! enqueue, the router drains in enqueue order and renders each entry with
//! its tag prefix — no reordering, no batching. A full queue refuses the
//! entry with an observable signal instead of buffering beyond its bound.

use vstd::prelude::*;

verus! {

/// An internal notification: a trace or an alert carrying its text.
#[derive(Debug, Clone)]
pub enum Notification {
    Trace(String),
    Alert(String),
}

/// The mathematical shape of a notification.
pub enum NotificationModel {
    Trace(Seq<char>),
    Alert(Seq<char>),
}

impl View for Notification {
    type V = NotificationModel;

    open spec fn view(&self) -> NotificationModel {
        match self {
            Notification::Trace(m) => NotificationModel::Trace(m@),
            Notification::Alert(m) => NotificationModel::Alert(m@),
        }
    }
}

/// The outbound text of a notification: its tag prefix, then its message.
pub open spec fn render_model(n: NotificationModel) -> Seq<char> {
    match n {
        NotificationModel::Trace(m) => "👁️ [TRACE] "@ + m,
        NotificationModel::Alert(m) => "🚨 [ALERT] "@ + m,
    }
}

/// Renders one notification for the outbound channel.
pub fn render_notification(n: &Notification) -> (r: String)
    ensures
        r@ == render_model(n@),
{
    match n {
        Notification::Trace(m) => String::from_str("👁️ [TRACE] ").concat(m.as_str()),
        Notification::Alert(m) => String::from_str("🚨 [ALERT] ").concat(m.as_str()),
    }
}

/// The router's bounded inbound queue, drained strictly first-in first-out.
pub struct NotifyQueue {
    items: Vec<Notification>,
    bound: usize,
}

impl View for NotifyQueue {
    type V = Seq<NotificationModel>;

    closed spec fn view(&self) -> Seq<NotificationModel> {
        self.items@.map_values(|n: Notification| n@)
    }
}

impl NotifyQueue {
    /// The queue's fixed capacity.
    pub closed spec fn capacity(&self) -> nat {
        self.bound as nat
    }

    pub fn new(bound: usize) -> (r: NotifyQueue)
        ensures
            r@ == Seq::<NotificationModel>::empty(),
            r.capacity() == bound as nat,
    {
        let r = NotifyQueue { items: Vec::new(), bound };
        proof {
            assert(r@ =~= Seq::<NotificationModel>::empty());
        }
        r
    }

    /// Appends a notification unless the queue is at its bound; a refused
    /// entry is reported by the `false` result, never buffered.
    pub fn enqueue(&mut self, n: Notification) -> (r: bool)
        ensures
            final(self).capacity() == old(self).capacity(),
            r == (old(self)@.len() < old(self).capacity()),
            r ==> final(self)@ == old(self)@.push(n@),
            !r ==> final(self)@ == old(self)@,
    {
        if self.items.len() < self.bound {
            let ghost pre = self@;
            let ghost nm = n@;
            self.items.push(n);
            proof {
                assert(self@ =~= pre.push(nm));
            }
            true
        } else {
            false
        }
    }

    /// Removes and returns the oldest notification, if any.
    pub fn dequeue(&mut self) -> (r: Option<Notification>)
        ensures
            final(self).capacity() == old(self).capacity(),
            old(self)@.len() == 0 ==> r is None && final(self)@ == old(self)@,
            old(self)@.len() > 0 ==> {
                &&& r is Some
                &&& r.unwrap()@ == old(self)@[0]
                &&& final(self)@ == old(self)@.drop_first()
            },
    {
        if self.items.len() == 0 {
            None
        } else {
            let n = self.items.remove(0);
            proof {
                assert(self@ =~= old(self)@.drop_first());
            }
            Some(n)
        }
    }

    /// How many notifications are queued.
    pub fn len(&self) -> (r: usize)
        ensures
            r == self@.len(),
    {
        self.items.len()
    }
}

/// Notification ordering: whatever the queue already holds, enqueuing `a`
/// and then `b` places them at consecutive positions, `a` first — and as
/// dequeuing always yields position zero and shifts the rest, the outbound
/// channel receives `a`'s rendering strictly before `b`'s, with nothing
/// slipped between positions that were already fixed.
pub proof fn lemma_notification_order(
    q: Seq<NotificationModel>,
    a: NotificationModel,
    b: NotificationModel,
)
    ensures
        q.push(a).push(b).len() == q.len() + 2,
        q.push(a).push(b)[q.len() as int] == a,
        q.push(a).push(b)[q.len() as int + 1] == b,
        forall|i: int| 0 <= i < q.len() ==> q.push(a).push(b)[i] == q[i],
{
}

} // verus!

//! The hub: the registry of connected sessions, each with its outbound queue,
//! and the slot that holds the last published message.
use vstd::prelude::*;
use crate::message::{BroadcastMessage, MessageView};

verus! {

/// The hub as a mathematical value: the outbound queue of each registered
/// session (its domain is the set of registered sessions) and the last
/// published message.
pub struct HubView {
    pub queues: Map<u64, Seq<MessageView>>,
    pub last: MessageView,
}

/// Registering adds the session with an empty queue; an already registered
/// session keeps its queue.
pub open spec fn register_spec(h: HubView, id: u64) -> HubView {
    if h.queues.contains_key(id) {
        h
    } else {
        HubView { queues: h.queues.insert(id, Seq::empty()), last: h.last }
    }
}

/// Unregistering removes the session and its queue, if it is there.
pub open spec fn unregister_spec(h: HubView, id: u64) -> HubView {
    HubView { queues: h.queues.remove(id), last: h.last }
}

/// Publishing makes `m` the last message and appends it to the queue of
/// every registered session.
pub open spec fn publish_spec(h: HubView, m: MessageView) -> HubView {
    HubView {
        queues: Map::new(|id: u64| h.queues.contains_key(id), |id: u64| h.queues[id].push(m)),
        last: m,
    }
}

/// Taking empties a registered session's queue.
pub open spec fn take_spec(h: HubView, id: u64) -> HubView {
    if h.queues.contains_key(id) {
        HubView { queues: h.queues.insert(id, Seq::empty()), last: h.last }
    } else {
        h
    }
}

/// What taking hands to the session: its queue, or nothing if it is not registered.
pub open spec fn taken_spec(h: HubView, id: u64) -> Seq<MessageView> {
    if h.queues.contains_key(id) {
        h.queues[id]
    } else {
        Seq::empty()
    }
}

/// One operation on the hub, as a mathematical value.
pub enum HubOp {
    Register(u64),
    Unregister(u64),
    Publish(MessageView),
    Take(u64),
}

pub open spec fn apply(h: HubView, op: HubOp) -> HubView {
    match op {
        HubOp::Register(id) => register_spec(h, id),
        HubOp::Unregister(id) => unregister_spec(h, id),
        HubOp::Publish(m) => publish_spec(h, m),
        HubOp::Take(id) => take_spec(h, id),
    }
}

/// The hub after the operations, in order.
pub open spec fn run(h: HubView, ops: Seq<HubOp>) -> HubView
    decreases ops.len(),
{
    if ops.len() == 0 {
        h
    } else {
        run(apply(h, ops[0]), ops.subrange(1, ops.len() as int))
    }
}

/// The messages that the operations publish, in order.
pub open spec fn published(ops: Seq<HubOp>) -> Seq<MessageView>
    decreases ops.len(),
{
    if ops.len() == 0 {
        Seq::empty()
    } else {
        let first = match ops[0] {
            HubOp::Publish(m) => seq![m],
            _ => Seq::empty(),
        };
        first + published(ops.subrange(1, ops.len() as int))
    }
}

/// What one operation hands to session `id`.
pub open spec fn handed(h: HubView, op: HubOp, id: u64) -> Seq<MessageView> {
    match op {
        HubOp::Take(t) => if t == id { taken_spec(h, id) } else { Seq::empty() },
        _ => Seq::empty(),
    }
}

/// Everything the operations hand to session `id`, in order.
pub open spec fn delivered(h: HubView, ops: Seq<HubOp>, id: u64) -> Seq<MessageView>
    decreases ops.len(),
{
    if ops.len() == 0 {
        Seq::empty()
    } else {
        handed(h, ops[0], id) + delivered(apply(h, ops[0]), ops.subrange(1, ops.len() as int), id)
    }
}

/// The sessions whose queue went from `before` to `after` by receiving `m`.
pub open spec fn receivers(before: HubView, after: HubView, m: MessageView) -> Set<u64> {
    Set::new(|id: u64| before.queues.contains_key(id) && after.queues.contains_key(id)
        && after.queues[id] == before.queues[id].push(m))
}

/// A published message reaches exactly the sessions registered when it is
/// published, each of them once, and no other session's queue changes.
pub proof fn lemma_publish_reaches_registered(h: HubView, m: MessageView)
    ensures
        receivers(h, publish_spec(h, m), m) == h.queues.dom(),
        publish_spec(h, m).queues.dom() == h.queues.dom(),
        forall|id: u64| h.queues.contains_key(id) ==>
            publish_spec(h, m).queues[id] == h.queues[id].push(m),
{
    let h2 = publish_spec(h, m);
    assert(h2.queues.dom() =~= h.queues.dom());
    assert(receivers(h, h2, m) =~= h.queues.dom());
}

/// A session that registers and then asks for the current state gets the
/// last published message; after any further operations it gets the last
/// message they published, or that same one if they published none.
pub proof fn lemma_register_then_current_state(h: HubView, id: u64, ops: Seq<HubOp>)
    ensures
        register_spec(h, id).last == h.last,
        run(register_spec(h, id), ops).last == if published(ops).len() == 0 {
            h.last
        } else {
            published(ops).last()
        },
{
    lemma_last_after(register_spec(h, id), ops);
}

/// After any operations the last message is the last one they published,
/// or the one before them if they published none.
pub proof fn lemma_last_after(h: HubView, ops: Seq<HubOp>)
    ensures
        run(h, ops).last == if published(ops).len() == 0 {
            h.last
        } else {
            published(ops).last()
        },
    decreases ops.len(),
{
    if ops.len() > 0 {
        let rest = ops.subrange(1, ops.len() as int);
        lemma_last_after(apply(h, ops[0]), rest);
    }
}

/// Per-session order: while a session stays registered, what it is handed
/// followed by what is still queued for it is exactly what was queued at the
/// start followed by every message published meanwhile, in publish order,
/// with nothing missing and nothing repeated.
pub proof fn lemma_fifo_per_session(h: HubView, ops: Seq<HubOp>, id: u64)
    requires
        h.queues.contains_key(id),
        forall|i: int| 0 <= i < ops.len() ==> ops[i] != HubOp::Unregister(id),
    ensures
        run(h, ops).queues.contains_key(id),
        delivered(h, ops, id) + run(h, ops).queues[id] == h.queues[id] + published(ops),
    decreases ops.len(),
{
    if ops.len() > 0 {
        let op = ops[0];
        let rest = ops.subrange(1, ops.len() as int);
        let h1 = apply(h, op);
        assert forall|i: int| 0 <= i < rest.len() implies rest[i] != HubOp::Unregister(id) by {
            assert(rest[i] == ops[i + 1]);
        }
        assert(op != HubOp::Unregister(id));
        let first = match op {
            HubOp::Publish(m) => seq![m],
            _ => Seq::<MessageView>::empty(),
        };
        assert(h1.queues.contains_key(id));
        assert(handed(h, op, id) + h1.queues[id] =~= h.queues[id] + first);
        lemma_fifo_per_session(h1, rest, id);
        assert(delivered(h, ops, id) == handed(h, op, id) + delivered(h1, rest, id));
        assert(published(ops) == first + published(rest));
        assert(delivered(h, ops, id) + run(h, ops).queues[id]
            =~= h.queues[id] + published(ops));
    }
}

/// Unregistering twice leaves the hub as unregistering once does.
pub proof fn lemma_unregister_idempotent(h: HubView, id: u64)
    ensures
        unregister_spec(unregister_spec(h, id), id) == unregister_spec(h, id),
{
    assert(unregister_spec(unregister_spec(h, id), id).queues =~= unregister_spec(h, id).queues);
}

/// A registration request for the session with the given handle.
pub struct RegisterClient {
    pub id: u64,
}

/// An unregistration request for the session with the given handle.
pub struct UnregisterClient {
    pub id: u64,
}

/// A registered session and the messages published to it that it has not
/// taken yet.
struct Client {
    id: u64,
    pending: Vec<BroadcastMessage>,
}

spec fn pending_view(c: Client) -> Seq<MessageView> {
    c.pending@.map_values(|m: BroadcastMessage| m@)
}

spec fn has_id(cs: Seq<Client>, id: u64) -> bool {
    exists|i: int| 0 <= i < cs.len() && cs[i].id == id
}

spec fn index_of(cs: Seq<Client>, id: u64) -> int {
    choose|i: int| 0 <= i < cs.len() && cs[i].id == id
}

spec fn ids_unique(cs: Seq<Client>) -> bool {
    forall|i: int, j: int| 0 <= i < cs.len() && 0 <= j < cs.len() && i != j ==> cs[i].id != cs[j].id
}

spec fn queues_of(cs: Seq<Client>) -> Map<u64, Seq<MessageView>> {
    Map::new(|id: u64| has_id(cs, id), |id: u64| pending_view(cs[index_of(cs, id)]))
}

proof fn lemma_index_of(cs: Seq<Client>, i: int)
    requires
        ids_unique(cs),
        0 <= i < cs.len(),
    ensures
        has_id(cs, cs[i].id),
        index_of(cs, cs[i].id) == i,
{
    assert(has_id(cs, cs[i].id));
}

/// The hub. Sessions are known by a `u64` handle; each registered session
/// has a queue of the messages published since it registered (or since it
/// last took them). No publish ever blocks on a session: it only appends to
/// the queues.
pub struct AppState {
    clients: Vec<Client>,
    broadcast_message: BroadcastMessage,
}

impl View for AppState {
    type V = HubView;

    closed spec fn view(&self) -> HubView {
        HubView { queues: queues_of(self.clients@), last: self.broadcast_message@ }
    }
}

impl AppState {
    /// Each session is registered at most once.
    pub closed spec fn wf(&self) -> bool {
        ids_unique(self.clients@)
    }

    /// A hub with no sessions, whose last message is `broadcast_message`
    /// (the welcome message that greets sessions before anything is published).
    pub fn new(broadcast_message: BroadcastMessage) -> (r: AppState)
        ensures
            r.wf(),
            r@.queues == Map::<u64, Seq<MessageView>>::empty(),
            r@.last == broadcast_message@,
    {
        let r = AppState { clients: Vec::new(), broadcast_message };
        assert(r@.queues =~= Map::<u64, Seq<MessageView>>::empty());
        r
    }

    /// Registers the session and, in the same step, returns the message it
    /// is greeted with: the last one published before it registered. Every
    /// later publish lands in its queue, so it sees no message twice and
    /// misses none.
    pub fn register_with_greeting(&mut self, msg: RegisterClient) -> (r: BroadcastMessage)
        requires
            old(self).wf(),
        ensures
            final(self).wf(),
            final(self)@ == register_spec(old(self)@, msg.id),
            r@ == old(self)@.last,
    {
        self.register_client(msg);
        self.get_broadcast_message()
    }

    /// Where the session stands in the registry, if it is registered.
    fn position_of(&self, id: u64) -> (r: Option<usize>)
        ensures
            match r {
                Some(i) => i < self.clients@.len() && self.clients@[i as int].id == id,
                None => !has_id(self.clients@, id),
            },
    {
        let n = self.clients.len();
        let mut i: usize = 0;
        while i < n
            invariant
                n == self.clients@.len(),
                i <= n,
                forall|j: int| 0 <= j < i ==> self.clients@[j].id != id,
            decreases n - i,
        {
            if self.clients[i].id == id {
                return Some(i);
            }
            i = i + 1;
        }
        None
    }

    /// Adds the session to the registry. Registering a session that is
    /// already there changes nothing.
    pub fn register_client(&mut self, msg: RegisterClient)
        requires
            old(self).wf(),
        ensures
            final(self).wf(),
            final(self)@ == register_spec(old(self)@, msg.id),
    {
        let id = msg.id;
        if let Some(i) = self.position_of(id) {
            proof {
                lemma_index_of(self.clients@, i as int);
            }
            return;
        }
        let ghost cs0 = self.clients@;
        self.clients.push(Client { id, pending: Vec::new() });
        proof {
            let cs1 = self.clients@;
            assert(!has_id(cs0, id));
            assert forall|a: int, b: int| 0 <= a < cs1.len() && 0 <= b < cs1.len() && a != b
                implies cs1[a].id != cs1[b].id by {
                if a < cs0.len() && b < cs0.len() {
                    assert(cs0[a] == cs1[a] && cs0[b] == cs1[b]);
                }
            }
            lemma_index_of(cs1, cs0.len() as int);
            assert(pending_view(cs1[cs0.len() as int]) =~= Seq::<MessageView>::empty());
            assert forall|k: u64| has_id(cs1, k) == (has_id(cs0, k) || k == id) by {
                if has_id(cs0, k) {
                    let j = index_of(cs0, k);
                    assert(cs1[j] == cs0[j]);
                }
                if has_id(cs1, k) && k != id {
                    let j = index_of(cs1, k);
                    assert(cs1[j] == cs0[j]);
                }
            }
            assert forall|k: u64| has_id(cs0, k) implies
                pending_view(cs1[index_of(cs1, k)]) == pending_view(cs0[index_of(cs0, k)]) by {
                let j = index_of(cs0, k);
                lemma_index_of(cs0, j);
                assert(cs1[j] == cs0[j]);
                lemma_index_of(cs1, j);
            }
            assert(queues_of(cs1) =~= queues_of(cs0).insert(id, Seq::empty()));
        }
    }

    /// Removes the session from the registry, with its queue. Removing a
    /// session that is not registered changes nothing.
    pub fn unregister_client(&mut self, msg: UnregisterClient)
        requires
            old(self).wf(),
        ensures
            final(self).wf(),
            final(self)@ == unregister_spec(old(self)@, msg.id),
    {
        let id = msg.id;
        let ghost cs0 = self.clients@;
        match self.position_of(id) {
            None => {
                assert(queues_of(cs0) =~= queues_of(cs0).remove(id));
            },
            Some(p) => {
                let _gone = self.clients.remove(p);
                proof {
                    let cs1 = self.clients@;
                    let q = p as int;
                    assert(cs1 =~= cs0.remove(q));
                    assert forall|a: int| 0 <= a < cs1.len() implies
                        cs1[a] == cs0[if a < q { a } else { a + 1 }] by {}
                    assert forall|a: int, b: int| 0 <= a < cs1.len() && 0 <= b < cs1.len() && a != b
                        implies cs1[a].id != cs1[b].id by {
                        assert(cs1[a] == cs0[if a < q { a } else { a + 1 }]);
                        assert(cs1[b] == cs0[if b < q { b } else { b + 1 }]);
                    }
                    assert forall|k: u64| has_id(cs1, k) == (has_id(cs0, k) && k != id) by {
                        if has_id(cs0, k) && k != id {
                            let j = index_of(cs0, k);
                            assert(j != q);
                            let a = if j < q { j } else { j - 1 };
                            assert(cs1[a] == cs0[j]);
                        }
                        if has_id(cs1, k) {
                            let a = index_of(cs1, k);
                            assert(cs1[a] == cs0[if a < q { a } else { a + 1 }]);
                            lemma_index_of(cs0, q);
                        }
                    }
                    assert forall|k: u64| has_id(cs0, k) && k != id implies
                        pending_view(cs1[index_of(cs1, k)]) == pending_view(cs0[index_of(cs0, k)]) by {
                        let j = index_of(cs0, k);
                        lemma_index_of(cs0, j);
                        let a = if j < q { j } else { j - 1 };
                        assert(cs1[a] == cs0[j]);
                        lemma_index_of(cs1, a);
                    }
                    assert(queues_of(cs1) =~= queues_of(cs0).remove(id));
                }
            },
        }
    }

    /// Makes `msg` the last message and appends a copy of it to the queue of
    /// every registered session. Returns the handles of those sessions, each
    /// once, so that the caller can wake them.
    pub fn broadcast(&mut self, msg: BroadcastMessage) -> (r: Vec<u64>)
        requires
            old(self).wf(),
        ensures
            final(self).wf(),
            final(self)@ == publish_spec(old(self)@, msg@),
            r@.to_set() == old(self)@.queues.dom(),
            r@.no_duplicates(),
    {
        let ghost cs0 = self.clients@;
        let n = self.clients.len();
        let mut recipients: Vec<u64> = Vec::new();
        let mut i: usize = 0;
        while i < n
            invariant
                n == cs0.len(),
                self.clients@.len() == n,
                i <= n,
                ids_unique(cs0),
                recipients@.len() == i,
                forall|j: int| 0 <= j < i ==> recipients@[j] == cs0[j].id,
                forall|j: int| 0 <= j < n ==> #[trigger] self.clients@[j].id == cs0[j].id,
                forall|j: int| 0 <= j < i ==> pending_view(#[trigger] self.clients@[j])
                    == pending_view(cs0[j]).push(msg@),
                forall|j: int| i <= j < n ==> #[trigger] self.clients@[j] == cs0[j],
            decreases n - i,
        {
            let copy = msg.duplicate();
            let ghost before = self.clients@[i as int];
            self.clients[i].pending.push(copy);
            proof {
                let after = self.clients@[i as int];
                assert(pending_view(after) =~= pending_view(before).push(msg@));
            }
            recipients.push(self.clients[i].id);
            i = i + 1;
        }
        self.broadcast_message = msg;
        proof {
            let cs1 = self.clients@;
            assert forall|a: int, b: int| 0 <= a < cs1.len() && 0 <= b < cs1.len() && a != b
                implies cs1[a].id != cs1[b].id by {
                assert(cs1[a].id == cs0[a].id && cs1[b].id == cs0[b].id);
            }
            assert forall|k: u64| has_id(cs1, k) == has_id(cs0, k) by {
                if has_id(cs0, k) {
                    let j = index_of(cs0, k);
                    assert(cs1[j].id == cs0[j].id);
                }
                if has_id(cs1, k) {
                    let j = index_of(cs1, k);
                    assert(cs1[j].id == cs0[j].id);
                }
            }
            assert forall|k: u64| has_id(cs0, k) implies
                pending_view(cs1[index_of(cs1, k)]) == pending_view(cs0[index_of(cs0, k)]).push(msg@) by {
                let j = index_of(cs0, k);
                lemma_index_of(cs0, j);
                assert(cs1[j].id == cs0[j].id);
                lemma_index_of(cs1, j);
            }
            assert(queues_of(cs1) =~= publish_spec(HubView { queues: queues_of(cs0), last: self.broadcast_message@ }, msg@).queues);
            assert forall|k: u64| recipients@.to_set().contains(k) == has_id(cs0, k) by {
                if has_id(cs0, k) {
                    let j = index_of(cs0, k);
                    assert(recipients@[j] == k);
                }
                if recipients@.to_set().contains(k) {
                    let j = choose|j: int| 0 <= j < recipients@.len() && recipients@[j] == k;
                    assert(cs0[j].id == k);
                }
            }
            assert(recipients@.to_set() =~= queues_of(cs0).dom());
        }
        recipients
    }

    /// Hands the session the messages queued for it, oldest first, and
    /// empties its queue. A session that is not registered gets nothing.
    pub fn take_pending(&mut self, id: u64) -> (r: Vec<BroadcastMessage>)
        requires
            old(self).wf(),
        ensures
            final(self).wf(),
            final(self)@ == take_spec(old(self)@, id),
            r@.map_values(|m: BroadcastMessage| m@) == taken_spec(old(self)@, id),
    {
        let ghost cs0 = self.clients@;
        match self.position_of(id) {
            None => {
                let r: Vec<BroadcastMessage> = Vec::new();
                assert(r@.map_values(|m: BroadcastMessage| m@) =~= Seq::<MessageView>::empty());
                r
            },
            Some(p) => {
                let mut r: Vec<BroadcastMessage> = Vec::new();
                std::mem::swap(&mut self.clients[p].pending, &mut r);
                proof {
                    let cs1 = self.clients@;
                    let q = p as int;
                    lemma_index_of(cs0, q);
                    assert forall|a: int| 0 <= a < cs1.len() && a != q implies cs1[a] == cs0[a] by {}
                    assert forall|a: int| 0 <= a < cs1.len() implies #[trigger] cs1[a].id == cs0[a].id by {}
                    assert forall|a: int, b: int| 0 <= a < cs1.len() && 0 <= b < cs1.len() && a != b
                        implies cs1[a].id != cs1[b].id by {
                        assert(cs1[a].id == cs0[a].id && cs1[b].id == cs0[b].id);
                    }
                    assert forall|k: u64| has_id(cs1, k) == has_id(cs0, k) by {
                        if has_id(cs0, k) {
                            let j = index_of(cs0, k);
                            assert(cs1[j].id == cs0[j].id);
                        }
                        if has_id(cs1, k) {
                            let j = index_of(cs1, k);
                            assert(cs1[j].id == cs0[j].id);
                        }
                    }
                    lemma_index_of(cs1, q);
                    assert(pending_view(cs1[q]) =~= Seq::<MessageView>::empty());
                    assert forall|k: u64| has_id(cs0, k) && k != id implies
                        pending_view(cs1[index_of(cs1, k)]) == pending_view(cs0[index_of(cs0, k)]) by {
                        let j = index_of(cs0, k);
                        lemma_index_of(cs0, j);
                        assert(cs1[j] == cs0[j]);
                        lemma_index_of(cs1, j);
                    }
                    assert(queues_of(cs1) =~= queues_of(cs0).insert(id, Seq::empty()));
                }
                r
            },
        }
    }

    /// A copy of the last published message (the welcome message if nothing
    /// has been published yet).
    pub fn get_broadcast_message(&self) -> (r: BroadcastMessage)
        ensures
            r@ == self@.last,
    {
        self.broadcast_message.duplicate()
    }

    /// Whether the session is registered.
    pub fn is_registered(&self, id: u64) -> (r: bool)
        ensures
            r == self@.queues.contains_key(id),
    {
        self.position_of(id).is_some()
    }
}

} // verus!

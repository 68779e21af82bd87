//! The subscriber registry: subscriptions keyed by an opaque id, each with an
//! optional outbound channel, and topic-filtered broadcast over them.
use vstd::prelude::*;
use crate::header::PublishMessage;
use crate::protocol::Error;

verus! {

/// A category of event a subscriber can opt into.
#[derive(Debug, Clone, Copy, PartialEq, Eq, Structural)]
pub enum Topic {
    HeaderVerified,
    ConfidenceAchieved,
    DataVerified,
}

/// A content-shaping option requested at subscribe time; informational to
/// this core, not used to filter broadcast.
#[derive(Debug, Clone, Copy, PartialEq, Eq, Structural)]
pub enum DataField {
    Data,
    Extrinsic,
}

/// A client's interest: a set of topics and a set of data fields, fixed at
/// subscribe time. The vectors carry the sets; membership is what counts.
#[derive(Debug, PartialEq)]
pub struct Subscription {
    pub topics: Vec<Topic>,
    pub data_fields: Vec<DataField>,
}

impl Default for Subscription {
    /// The empty interest: no topics, no data fields.
    fn default() -> (r: Subscription)
        ensures
            r.topics@ == Seq::<Topic>::empty(),
            r.data_fields@ == Seq::<DataField>::empty(),
    {
        Subscription { topics: Vec::new(), data_fields: Vec::new() }
    }
}

impl Subscription {
    /// True exactly when `topic` is one of the subscribed topics.
    pub fn matches(&self, topic: &Topic) -> (r: bool)
        ensures
            r == self.topics@.contains(*topic),
    {
        let mut i: usize = 0;
        while i < self.topics.len()
            invariant
                i <= self.topics@.len(),
                forall|j: int| 0 <= j < i ==> self.topics@[j] != *topic,
            decreases self.topics@.len() - i,
        {
            if self.topics[i] == *topic {
                return true;
            }
            i = i + 1;
        }
        false
    }
}

/// The outbound channel of one subscriber. Enqueueing never blocks; whether
/// the receiver is still there is only learnt from the send's outcome.
pub type Sender = tokio::sync::mpsc::UnboundedSender<String>;

#[verifier::external_type_specification]
#[verifier::external_body]
#[verifier::reject_recursive_types(T)]
pub struct ExUnboundedSender<T>(tokio::sync::mpsc::UnboundedSender<T>);

/// Relies on tokio's UnboundedSender::send: enqueues the message unless the
/// receiving half is gone; either way it returns, and the registry treats
/// both outcomes alike.
#[verifier::external_body]
fn send_text(sender: &Sender, text: &String) -> (r: bool) {
    sender.send(text.clone()).is_ok()
}

/// One registry entry: the subscription and, once the client has opened its
/// delivery channel, the sender.
pub struct WsClient {
    pub subscription: Subscription,
    pub sender: Option<Sender>,
}

impl WsClient {
    /// A fresh, unattached entry.
    pub fn new(subscription: Subscription) -> (r: WsClient)
        ensures
            r.subscription == subscription,
            r.sender is None,
    {
        WsClient { subscription, sender: None }
    }

    fn is_subscribed(&self, topic: &Topic) -> (r: bool)
        ensures
            r == self.subscription.topics@.contains(*topic),
    {
        self.subscription.matches(topic)
    }
}

struct Entry {
    id: String,
    client: WsClient,
}

/// The subscriber registry: one entry per subscription id.
pub struct WsClients {
    clients: Vec<Entry>,
}

impl Default for WsClients {
    /// The empty registry.
    fn default() -> (r: WsClients)
        ensures
            r.wf(),
            forall|k: Seq<char>| !r.contains_id(k),
    {
        WsClients { clients: Vec::new() }
    }
}

impl WsClients {
    /// No two entries share an id, so lookup by id is a function.
    pub closed spec fn wf(self) -> bool {
        forall|i: int, j: int|
            0 <= i < j < self.clients@.len() ==> (#[trigger] self.clients@[i].id@) != (
            #[trigger] self.clients@[j].id@)
    }

    /// Whether some entry is registered under `id`.
    pub closed spec fn contains_id(self, id: Seq<char>) -> bool {
        exists|i: int| 0 <= i < self.clients@.len() && (#[trigger] self.clients@[i].id@) == id
    }

    spec fn idx_of(self, id: Seq<char>) -> int {
        choose|i: int| 0 <= i < self.clients@.len() && (#[trigger] self.clients@[i].id@) == id
    }

    /// The entry registered under `id`, meaningful when `contains_id` holds.
    pub closed spec fn client_of(self, id: Seq<char>) -> WsClient {
        self.clients@[self.idx_of(id)].client
    }

    /// Whether the entry under `id` would receive a broadcast of `topic`:
    /// it is registered, it subscribed to the topic, and it has a sender.
    pub open spec fn delivers_to(self, id: Seq<char>, topic: Topic) -> bool {
        &&& self.contains_id(id)
        &&& self.client_of(id).subscription.topics@.contains(topic)
        &&& self.client_of(id).sender is Some
    }

    proof fn lemma_client_at(self, i: int)
        requires
            self.wf(),
            0 <= i < self.clients@.len(),
        ensures
            self.contains_id(self.clients@[i].id@),
            self.client_of(self.clients@[i].id@) == self.clients@[i].client,
            self.idx_of(self.clients@[i].id@) == i,
    {
        let id = self.clients@[i].id@;
        assert(self.contains_id(id));
        let j = self.idx_of(id);
        assert(0 <= j < self.clients@.len() && self.clients@[j].id@ == id);
        if i < j {
            assert(self.clients@[i].id@ != self.clients@[j].id@);
        } else if j < i {
            assert(self.clients@[j].id@ != self.clients@[i].id@);
        }
    }

    /// After removing the entry at `i`, the rest of the registry reads the
    /// same: the removed id is gone and every other id keeps its entry.
    proof fn lemma_after_remove(pre: WsClients, cur: WsClients, i: int)
        requires
            pre.wf(),
            0 <= i < pre.clients@.len(),
            cur.clients@ == pre.clients@.remove(i),
        ensures
            cur.wf(),
            forall|j: int|
                0 <= j < cur.clients@.len() ==> (#[trigger] cur.clients@[j].id@)
                    != pre.clients@[i].id@,
            forall|k: Seq<char>|
                k != pre.clients@[i].id@ ==> cur.contains_id(k) == pre.contains_id(k),
            forall|k: Seq<char>|
                k != pre.clients@[i].id@ && pre.contains_id(k) ==> cur.client_of(k)
                    == pre.client_of(k),
    {
        pre.clients@.remove_ensures(i);
        let sid = pre.clients@[i].id@;
        assert forall|a: int, b: int| 0 <= a < b < cur.clients@.len() implies (
        #[trigger] cur.clients@[a].id@) != (#[trigger] cur.clients@[b].id@) by {
            if b < i {
                assert(cur.clients@[a] == pre.clients@[a]);
                assert(cur.clients@[b] == pre.clients@[b]);
            } else if a < i {
                assert(cur.clients@[a] == pre.clients@[a]);
                assert(cur.clients@[b] == pre.clients@[b + 1]);
            } else {
                assert(cur.clients@[a] == pre.clients@[a + 1]);
                assert(cur.clients@[b] == pre.clients@[b + 1]);
            }
        }
        assert forall|j: int| 0 <= j < cur.clients@.len() implies (
        #[trigger] cur.clients@[j].id@) != sid by {
            if j < i {
                assert(cur.clients@[j] == pre.clients@[j]);
            } else {
                assert(cur.clients@[j] == pre.clients@[j + 1]);
            }
        }
        assert forall|k: Seq<char>| k != sid implies cur.contains_id(k) == pre.contains_id(
            k,
        ) by {
            if cur.contains_id(k) {
                let j = choose|j: int|
                    0 <= j < cur.clients@.len() && (#[trigger] cur.clients@[j].id@) == k;
                if j < i {
                    assert(pre.clients@[j].id@ == k);
                } else {
                    assert(pre.clients@[j + 1].id@ == k);
                }
                assert(pre.contains_id(k));
            }
            if pre.contains_id(k) {
                let j = choose|j: int|
                    0 <= j < pre.clients@.len() && (#[trigger] pre.clients@[j].id@) == k;
                if j < i {
                    assert(cur.clients@[j].id@ == k);
                } else {
                    assert(j != i);
                    assert(cur.clients@[j - 1].id@ == k);
                }
                assert(cur.contains_id(k));
            }
        }
        assert forall|k: Seq<char>| k != sid && pre.contains_id(k) implies cur.client_of(k)
            == pre.client_of(k) by {
            let j = choose|j: int|
                0 <= j < pre.clients@.len() && (#[trigger] pre.clients@[j].id@) == k;
            pre.lemma_client_at(j);
            let m: int = if j < i {
                j
            } else {
                j - 1
            };
            assert(cur.clients@[m] == pre.clients@[j]);
            cur.lemma_client_at(m);
        }
    }

    /// After pushing an entry whose id is not yet registered, that id reads
    /// the new entry and every other id keeps its old one.
    proof fn lemma_after_push(mid: WsClients, fin: WsClients, e: Entry)
        requires
            mid.wf(),
            forall|j: int|
                0 <= j < mid.clients@.len() ==> (#[trigger] mid.clients@[j].id@) != e.id@,
            fin.clients@ == mid.clients@.push(e),
        ensures
            fin.wf(),
            fin.contains_id(e.id@),
            fin.client_of(e.id@) == e.client,
            forall|k: Seq<char>| k != e.id@ ==> fin.contains_id(k) == mid.contains_id(k),
            forall|k: Seq<char>|
                k != e.id@ && mid.contains_id(k) ==> fin.client_of(k) == mid.client_of(k),
    {
        let n = mid.clients@.len() as int;
        assert(fin.clients@[n] == e);
        assert forall|a: int, b: int| 0 <= a < b < fin.clients@.len() implies (
        #[trigger] fin.clients@[a].id@) != (#[trigger] fin.clients@[b].id@) by {
            assert(fin.clients@[a] == mid.clients@[a]);
            if b < n {
                assert(fin.clients@[b] == mid.clients@[b]);
            }
        }
        fin.lemma_client_at(n);
        assert forall|k: Seq<char>| k != e.id@ implies fin.contains_id(k) == mid.contains_id(
            k,
        ) by {
            if fin.contains_id(k) {
                let j = choose|j: int|
                    0 <= j < fin.clients@.len() && (#[trigger] fin.clients@[j].id@) == k;
                assert(j != n);
                assert(mid.clients@[j].id@ == k);
                assert(mid.contains_id(k));
            }
            if mid.contains_id(k) {
                let j = choose|j: int|
                    0 <= j < mid.clients@.len() && (#[trigger] mid.clients@[j].id@) == k;
                assert(fin.clients@[j].id@ == k);
                assert(fin.contains_id(k));
            }
        }
        assert forall|k: Seq<char>| k != e.id@ && mid.contains_id(k) implies fin.client_of(k)
            == mid.client_of(k) by {
            let j = choose|j: int|
                0 <= j < mid.clients@.len() && (#[trigger] mid.clients@[j].id@) == k;
            mid.lemma_client_at(j);
            assert(fin.clients@[j] == mid.clients@[j]);
            fin.lemma_client_at(j);
        }
    }

    fn index_of(&self, key: &String) -> (r: Option<usize>)
        ensures
            match r {
                Some(i) => i < self.clients@.len() && self.clients@[i as int].id@ == key@
                    && self.contains_id(key@),
                None => !self.contains_id(key@),
            },
    {
        let mut i: usize = 0;
        while i < self.clients.len()
            invariant
                i <= self.clients@.len(),
                forall|j: int| 0 <= j < i ==> (#[trigger] self.clients@[j].id@) != key@,
            decreases self.clients@.len() - i,
        {
            if self.clients[i].id == *key {
                return Some(i);
            }
            i = i + 1;
        }
        None
    }

    /// Checks whether `subscription_id` is registered.
    pub fn has_subscription(&self, subscription_id: &str) -> (r: bool)
        ensures
            r == self.contains_id(subscription_id@),
    {
        let key = subscription_id.to_owned();
        self.index_of(&key).is_some()
    }

    /// Registers `subscription` under `subscription_id` as a fresh,
    /// unattached entry, replacing — not merging with — any prior entry
    /// under the same id; every other entry is untouched.
    pub fn subscribe(&mut self, subscription_id: String, subscription: Subscription)
        requires
            old(self).wf(),
        ensures
            final(self).wf(),
            final(self).contains_id(subscription_id@),
            final(self).client_of(subscription_id@).subscription == subscription,
            final(self).client_of(subscription_id@).sender is None,
            forall|k: Seq<char>|
                k != subscription_id@ ==> final(self).contains_id(k) == old(self).contains_id(k),
            forall|k: Seq<char>|
                k != subscription_id@ && old(self).contains_id(k) ==> final(self).client_of(k)
                    == old(self).client_of(k),
    {
        let ghost pre = *self;
        let ghost sid = subscription_id@;
        match self.index_of(&subscription_id) {
            Some(i) => {
                self.clients.remove(i);
                proof {
                    WsClients::lemma_after_remove(pre, *self, i as int);
                }
            },
            None => {
                proof {
                    assert forall|j: int| 0 <= j < self.clients@.len() implies (
                    #[trigger] self.clients@[j].id@) != sid by {
                        if self.clients@[j].id@ == sid {
                            assert(self.contains_id(sid));
                        }
                    }
                }
            },
        }
        let ghost mid = *self;
        let entry = Entry { id: subscription_id, client: WsClient::new(subscription) };
        let ghost e = entry;
        self.clients.push(entry);
        proof {
            WsClients::lemma_after_push(mid, *self, e);
        }
    }

    /// Attaches the outbound channel of an existing entry, keeping its
    /// subscription; on an unknown id it returns false and changes nothing.
    pub fn set_sender(&mut self, subscription_id: &str, sender: Sender) -> (r: bool)
        requires
            old(self).wf(),
        ensures
            final(self).wf(),
            r == old(self).contains_id(subscription_id@),
            !r ==> *final(self) == *old(self),
            forall|k: Seq<char>| final(self).contains_id(k) == old(self).contains_id(k),
            r ==> final(self).client_of(subscription_id@).subscription == old(self).client_of(
                subscription_id@,
            ).subscription,
            r ==> final(self).client_of(subscription_id@).sender == Some(sender),
            forall|k: Seq<char>|
                k != subscription_id@ && old(self).contains_id(k) ==> final(self).client_of(k)
                    == old(self).client_of(k),
    {
        let ghost pre = *self;
        let ghost sid = subscription_id@;
        let key = subscription_id.to_owned();
        match self.index_of(&key) {
            Some(i) => {
                let mut entry = self.clients.remove(i);
                proof {
                    WsClients::lemma_after_remove(pre, *self, i as int);
                    pre.lemma_client_at(i as int);
                }
                entry.client.sender = Some(sender);
                let ghost mid = *self;
                let ghost e = entry;
                self.clients.push(entry);
                proof {
                    WsClients::lemma_after_push(mid, *self, e);
                    assert(self.contains_id(sid) == pre.contains_id(sid));
                }
                true
            },
            None => false,
        }
    }

    /// The ids a broadcast of `topic` is delivered to: exactly those whose
    /// subscription contains the topic and which have an attached sender,
    /// each id once.
    #[verifier::rlimit(50)]
    pub fn recipients(&self, topic: &Topic) -> (r: Vec<String>)
        requires
            self.wf(),
        ensures
            forall|j: int| 0 <= j < r@.len() ==> self.delivers_to(#[trigger] r@[j]@, *topic),
            forall|k: Seq<char>|
                self.delivers_to(k, *topic) ==> exists|j: int|
                    0 <= j < r@.len() && (#[trigger] r@[j]@) == k,
            forall|j1: int, j2: int|
                0 <= j1 < j2 < r@.len() ==> (#[trigger] r@[j1]@) != (#[trigger] r@[j2]@),
    {
        let mut out: Vec<String> = Vec::new();
        let mut i: usize = 0;
        while i < self.clients.len()
            invariant
                self.wf(),
                i <= self.clients@.len(),
                forall|j: int| 0 <= j < out@.len() ==> self.delivers_to(#[trigger] out@[j]@, *topic),
                forall|i0: int|
                    0 <= i0 < i && (#[trigger] self.clients@[i0].client.subscription.topics@.contains(
                        *topic,
                    )) && self.clients@[i0].client.sender is Some ==> exists|j: int|
                        0 <= j < out@.len() && (#[trigger] out@[j]@) == self.clients@[i0].id@,
                forall|j: int| #![trigger out@[j]]
                    0 <= j < out@.len() ==> self.idx_of(out@[j]@) < i,
                forall|j1: int, j2: int|
                    0 <= j1 < j2 < out@.len() ==> (#[trigger] out@[j1]@) != (#[trigger] out@[j2]@),
            decreases self.clients@.len() - i,
        {
            let entry = &self.clients[i];
            let deliver = entry.client.is_subscribed(topic) && entry.client.sender.is_some();
            let ghost prev_out = out@;
            if deliver {
                out.push(entry.id.clone());
                proof {
                    self.lemma_client_at(i as int);
                    assert forall|j: int| 0 <= j < out@.len() implies self.delivers_to(
                        #[trigger] out@[j]@,
                        *topic,
                    ) by {
                        if j < prev_out.len() {
                            assert(out@[j] == prev_out[j]);
                        } else {
                            assert(out@[j]@ == self.clients@[i as int].id@);
                            assert(self.delivers_to(self.clients@[i as int].id@, *topic));
                        }
                    }
                }
            }
            proof {
                assert forall|i0: int|
                    0 <= i0 < i + 1 && (
                    #[trigger] self.clients@[i0].client.subscription.topics@.contains(*topic))
                        && self.clients@[i0].client.sender is Some implies exists|j: int|
                    0 <= j < out@.len() && (#[trigger] out@[j]@) == self.clients@[i0].id@ by {
                    if i0 < i {
                        let j = choose|j: int|
                            0 <= j < prev_out.len() && (#[trigger] prev_out[j]@)
                                == self.clients@[i0].id@;
                        assert(out@[j]@ == self.clients@[i0].id@);
                    } else {
                        assert(deliver);
                        assert(out@[out@.len() - 1]@ == self.clients@[i0].id@);
                    }
                }
                assert forall|j: int| #![trigger out@[j]] 0 <= j < out@.len() implies self.idx_of(
                    out@[j]@,
                ) < i + 1 by {
                    if j < prev_out.len() {
                        assert(out@[j] == prev_out[j]);
                        assert(self.idx_of(prev_out[j]@) < i);
                    } else {
                        assert(out@[j]@ == self.clients@[i as int].id@);
                        self.lemma_client_at(i as int);
                    }
                }
                assert forall|j1: int, j2: int| 0 <= j1 < j2 < out@.len() implies (
                #[trigger] out@[j1]@) != (#[trigger] out@[j2]@) by {
                    if j2 < prev_out.len() {
                        assert(out@[j1] == prev_out[j1]);
                        assert(out@[j2] == prev_out[j2]);
                    } else {
                        assert(out@[j1] == prev_out[j1]);
                        assert(out@[j2]@ == self.clients@[i as int].id@);
                        self.lemma_client_at(i as int);
                        if out@[j1]@ == out@[j2]@ {
                            assert(self.idx_of(prev_out[j1]@) < i);
                            assert(self.idx_of(out@[j2]@) == i);
                        }
                    }
                }
            }
            i = i + 1;
        }
        proof {
            assert forall|k: Seq<char>| self.delivers_to(k, *topic) implies exists|j: int|
                0 <= j < out@.len() && (#[trigger] out@[j]@) == k by {
                let i0 = choose|i0: int|
                    0 <= i0 < self.clients@.len() && (#[trigger] self.clients@[i0].id@) == k;
                self.lemma_client_at(i0);
                assert(self.clients@[i0].client.subscription.topics@.contains(*topic));
                assert(self.clients@[i0].client.sender is Some);
            }
        }
        out
    }

    /// Broadcasts `message` under `topic`: the envelope is serialized once
    /// (`to_json`, total, so the broadcast always succeeds), then enqueued to
    /// every matching attached subscriber, and the call returns the ids it
    /// enqueued to: exactly those whose subscription contains the topic and
    /// which have an attached sender, each once. A dead channel is skipped
    /// without effect on the others: the send's outcome is discarded per
    /// subscriber and never changes the result.
    #[verifier::rlimit(50)]
    pub fn publish(&self, topic: Topic, message: PublishMessage) -> (r: Result<Vec<String>, Error>)
        requires
            self.wf(),
        ensures
            r is Ok,
            r matches Ok(ids) ==> (forall|j: int|
                0 <= j < ids@.len() ==> self.delivers_to(#[trigger] ids@[j]@, topic)),
            r matches Ok(ids) ==> (forall|k: Seq<char>|
                self.delivers_to(k, topic) ==> exists|j: int|
                    0 <= j < ids@.len() && (#[trigger] ids@[j]@) == k),
            r matches Ok(ids) ==> (forall|j1: int, j2: int|
                0 <= j1 < j2 < ids@.len() ==> (#[trigger] ids@[j1]@) != (#[trigger] ids@[j2]@)),
    {
        let text = message.to_json();
        let ids = self.recipients(&topic);
        let mut i: usize = 0;
        while i < ids.len()
            invariant
                self.wf(),
                i <= ids@.len(),
                forall|j: int| 0 <= j < ids@.len() ==> self.delivers_to(#[trigger] ids@[j]@, topic),
                forall|k: Seq<char>|
                    self.delivers_to(k, topic) ==> exists|j: int|
                        0 <= j < ids@.len() && (#[trigger] ids@[j]@) == k,
                forall|j1: int, j2: int|
                    0 <= j1 < j2 < ids@.len() ==> (#[trigger] ids@[j1]@) != (#[trigger] ids@[j2]@),
            decreases ids@.len() - i,
        {
            if let Some(idx) = self.index_of(&ids[i]) {
                if let Some(sender) = &self.clients[idx].client.sender {
                    let _ = send_text(sender, &text);
                }
            }
            i = i + 1;
        }
        let result: Result<Vec<String>, Error> = Ok(ids);
        proof {
            let rids = result->Ok_0;
            assert forall|k: Seq<char>| self.delivers_to(k, topic) implies exists|j: int|
                0 <= j < rids@.len() && (#[trigger] rids@[j]@) == k by {
                let j = choose|j: int| 0 <= j < rids@.len() && (#[trigger] rids@[j]@) == k;
                assert(rids@[j]@ == k);
            }
        }
        result
    }
}

} // verus!

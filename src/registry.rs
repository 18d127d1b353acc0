//! The broker's registries and the decisions that change them: pending and
//! active subscribers, known publishers and retained messages. Every
//! operation here is pure computation; the deliveries an operation calls for
//! come back as a plan that the caller carries out once the registries are
//! released.
use crate::headers::{decoded, unformat_headers};
use crate::ident::{id_text, uuid_text};
use crate::models::{Message, MessageKey, MessageView, Publisher, Subscriber};
use std::collections::HashMap;
use vstd::prelude::*;
use vstd::string::StringExecFns;

verus! {

broadcast use vstd::std_specs::hash::group_hash_axioms;

/// What a delivery asks of a subscriber's callback.
#[derive(PartialEq, Eq, Structural, Clone, Copy, Debug)]
pub enum DeliveryKind {
    /// Take this message (a POST to `{callback}receive/...`).
    Publish,
    /// Forget this message (a DELETE to `{callback}remove/...`).
    Remove,
}

/// One call to make on the delivery client.
#[derive(Debug)]
pub struct Delivery {
    pub kind: DeliveryKind,
    pub subscriber: u128,
    pub callback: String,
    pub message: Message,
}

/// The abstract value of a delivery.
pub struct DeliveryView {
    pub kind: DeliveryKind,
    pub subscriber: u128,
    pub callback: Seq<char>,
    pub message: MessageView,
}

impl View for Delivery {
    type V = DeliveryView;

    open spec fn view(&self) -> DeliveryView {
        DeliveryView {
            kind: self.kind,
            subscriber: self.subscriber,
            callback: self.callback@,
            message: self.message@,
        }
    }
}

/// The abstract value of a plan.
pub open spec fn plan_view(p: Seq<Delivery>) -> Seq<DeliveryView> {
    p.map_values(|d: Delivery| d@)
}

/// The abstract value of a list of messages.
pub open spec fn messages_view(r: Seq<Message>) -> Seq<MessageView> {
    r.map_values(|m: Message| m@)
}

/// Sending `m` to subscriber `s`.
pub open spec fn publish_to(s: Subscriber, m: MessageView) -> DeliveryView {
    DeliveryView { kind: DeliveryKind::Publish, subscriber: s.id, callback: s.callback@, message: m }
}

/// What a retraction of `m` carries: the message without its body.
pub open spec fn retraction(m: MessageView) -> MessageView {
    MessageView { body: Seq::empty(), ..m }
}

/// Telling subscriber `s` that `m` is withdrawn.
pub open spec fn retract_to(s: Subscriber, m: MessageView) -> DeliveryView {
    DeliveryView {
        kind: DeliveryKind::Remove,
        subscriber: s.id,
        callback: s.callback@,
        message: retraction(m),
    }
}

/// Subscribers of topic `t`.
pub open spec fn on_topic(t: Seq<char>) -> spec_fn(Subscriber) -> bool {
    |s: Subscriber| s.topic@ == t
}

/// Subscribers other than `id`.
pub open spec fn other_than(id: u128) -> spec_fn(Subscriber) -> bool {
    |s: Subscriber| s.id != id
}

/// Messages of topic `t`.
pub open spec fn message_on_topic(t: Seq<char>) -> spec_fn(MessageView) -> bool {
    |m: MessageView| m.topic == t
}

/// Messages of publishers other than `p`.
pub open spec fn not_from(p: u128) -> spec_fn(MessageView) -> bool {
    |m: MessageView| m.publisher != p
}

/// Messages of publisher `p`.
pub open spec fn from_publisher(p: u128) -> spec_fn(MessageView) -> bool {
    |m: MessageView| m.publisher == p
}

/// Messages retained under keys other than `k`.
pub open spec fn not_at(k: MessageKey) -> spec_fn(MessageView) -> bool {
    |m: MessageView| m.key() != k
}

/// The active subscribers of topic `t`, in order.
pub open spec fn listeners(active: Seq<Subscriber>, t: Seq<char>) -> Seq<Subscriber> {
    active.filter(on_topic(t))
}

/// Sending `m` to every active subscriber of its topic.
pub open spec fn fan_out(active: Seq<Subscriber>, m: MessageView) -> Seq<DeliveryView> {
    listeners(active, m.topic).map_values(|s: Subscriber| publish_to(s, m))
}

/// Retracting `m` from every active subscriber of its topic.
pub open spec fn retract_fan_out(active: Seq<Subscriber>, m: MessageView) -> Seq<DeliveryView> {
    listeners(active, m.topic).map_values(|s: Subscriber| retract_to(s, m))
}

/// Sending every retained message of its topic to a newly confirmed subscriber.
pub open spec fn replay(s: Subscriber, retained: Seq<MessageView>) -> Seq<DeliveryView> {
    retained.filter(message_on_topic(s.topic@)).map_values(|m: MessageView| publish_to(s, m))
}

/// Retracting each message of `removed`, in order, from the active
/// subscribers of its topic.
pub open spec fn retractions(removed: Seq<MessageView>, active: Seq<Subscriber>) -> Seq<DeliveryView>
    decreases removed.len(),
{
    if removed.len() == 0 {
        Seq::empty()
    } else {
        retractions(removed.drop_last(), active) + retract_fan_out(active, removed.last())
    }
}

/// No two messages are retained under the same topic, publisher and subject.
pub open spec fn unique_keys(r: Seq<MessageView>) -> bool {
    forall|i: int, j: int| 0 <= i < j < r.len() ==> r[i].key() != r[j].key()
}

/// Whether the plan holds a failed delivery of a message to subscriber `id`.
pub open spec fn publish_failed(plan: Seq<DeliveryView>, outcomes: Seq<bool>, id: u128) -> bool {
    exists|i: int|
        0 <= i < plan.len() && !outcomes[i] && plan[i].kind == DeliveryKind::Publish
            && #[trigger] plan[i].subscriber == id
}

/// Subscribers to which every delivery of a message in the plan succeeded.
pub open spec fn not_failed(plan: Seq<DeliveryView>, outcomes: Seq<bool>) -> spec_fn(Subscriber) -> bool {
    |s: Subscriber| !publish_failed(plan, outcomes, s.id)
}

/// The retained messages after storing `m`: it takes the place of the message
/// with its key, or joins the end where there is none.
pub open spec fn upserted(r: Seq<MessageView>, m: MessageView) -> Seq<MessageView> {
    if exists|i: int| 0 <= i < r.len() && #[trigger] r[i].key() == m.key() {
        r.update(choose|i: int| 0 <= i < r.len() && #[trigger] r[i].key() == m.key(), m)
    } else {
        r.push(m)
    }
}

/// The text of the error for touching an unknown publisher.
pub open spec fn unknown_publisher_text(id: u128) -> Seq<char> {
    "Touching unknown publisher with id: "@ + uuid_text(id)
}

/// A message as it is retained: its headers taken out of the `info-` namespace.
pub open spec fn canonical(m: MessageView) -> MessageView {
    MessageView { headers: decoded(m.headers), ..m }
}

/// A publisher record seen at `now`.
pub open spec fn seen(id: u128, now: i64) -> Publisher {
    Publisher { id, last_seen: now }
}

/// One step of a filter over a prefix.
proof fn lemma_filter_step<A>(s: Seq<A>, i: int, p: spec_fn(A) -> bool)
    requires
        0 <= i < s.len(),
    ensures
        s.take(i + 1).filter(p) == (if p(s[i]) {
            s.take(i).filter(p).push(s[i])
        } else {
            s.take(i).filter(p)
        }),
{
    reveal(Seq::filter);
    assert(s.take(i + 1).drop_last() =~= s.take(i));
}

/// Unsubscribing `id`: every occurrence of it leaves `active`; nothing else
/// changes.
pub open spec fn unsubscribe_effect(before: Registries, id: u128, after: Registries) -> bool {
    &&& after.active@ == before.active@.filter(other_than(id))
    &&& after.pending@ == before.pending@
    &&& after.publishers@ == before.publishers@
    &&& after.retained@ == before.retained@
}

/// Adding publisher `id` at `now`: it is recorded as seen at `now`,
/// replacing any earlier record; nothing else changes.
pub open spec fn add_publisher_effect(before: Registries, id: u128, now: i64, after: Registries) -> bool {
    &&& after.publishers@ == before.publishers@.insert(id, seen(id, now))
    &&& after.pending@ == before.pending@
    &&& after.active@ == before.active@
    &&& after.retained@ == before.retained@
}

/// Confirming subscriber `id`: a pending subscriber moves to the end of
/// `active` and is sent every retained message of its topic; any other
/// identifier changes nothing and asks for nothing. Either way `id` is no
/// longer pending.
pub open spec fn touch_effect(before: Registries, id: u128, after: Registries, plan: Seq<DeliveryView>) -> bool {
    &&& !after.pending@.contains_key(id)
    &&& after.publishers@ == before.publishers@
    &&& after.retained@ == before.retained@
    &&& if before.pending@.contains_key(id) {
        let s = before.pending@[id];
        &&& after.pending@ == before.pending@.remove(id)
        &&& after.active@ == before.active@.push(s)
        &&& plan == replay(s, before.retained_view())
    } else {
        &&& after.pending@ == before.pending@
        &&& after.active@ == before.active@
        &&& plan.len() == 0
    }
}

/// Publishing `m` at `now`: for a known publisher, it is seen at `now`, the
/// message (headers out of the `info-` namespace) is retained under its key,
/// and it goes to every active subscriber of its topic; for an unknown one
/// nothing changes.
pub open spec fn publish_effect(before: Registries, m: MessageView, now: i64, after: Registries, plan: Seq<DeliveryView>) -> bool {
    &&& after.pending@ == before.pending@
    &&& after.active@ == before.active@
    &&& if before.publishers@.contains_key(m.publisher) {
        &&& after.publishers@ == before.publishers@.insert(m.publisher, seen(m.publisher, now))
        &&& after.retained_view() == upserted(before.retained_view(), canonical(m))
        &&& plan == fan_out(before.active@, canonical(m))
    } else {
        &&& after.publishers@ == before.publishers@
        &&& after.retained@ == before.retained@
        &&& plan.len() == 0
    }
}

/// Retracting `m` at `now`: for a known publisher, it is seen at `now`, the
/// message retained under the key of `m` is dropped, and every active
/// subscriber of the topic is told; for an unknown one nothing changes.
pub open spec fn retract_effect(before: Registries, m: MessageView, now: i64, after: Registries, plan: Seq<DeliveryView>) -> bool {
    &&& after.pending@ == before.pending@
    &&& after.active@ == before.active@
    &&& if before.publishers@.contains_key(m.publisher) {
        &&& after.publishers@ == before.publishers@.insert(m.publisher, seen(m.publisher, now))
        &&& after.retained_view() == before.retained_view().filter(not_at(m.key()))
        &&& plan == retract_fan_out(before.active@, m)
    } else {
        &&& after.publishers@ == before.publishers@
        &&& after.retained@ == before.retained@
        &&& plan.len() == 0
    }
}

/// Removing publisher `id`: it is forgotten with every message it retained,
/// and each of those is retracted from every active subscriber of its
/// topic; an unknown publisher changes nothing.
pub open spec fn remove_publisher_effect(before: Registries, id: u128, after: Registries, plan: Seq<DeliveryView>) -> bool {
    &&& after.pending@ == before.pending@
    &&& after.active@ == before.active@
    &&& if before.publishers@.contains_key(id) {
        &&& after.publishers@ == before.publishers@.remove(id)
        &&& after.retained_view() == before.retained_view().filter(not_from(id))
        &&& plan == retractions(before.retained_view().filter(from_publisher(id)), before.active@)
    } else {
        &&& after.publishers@ == before.publishers@
        &&& after.retained@ == before.retained@
        &&& plan.len() == 0
    }
}

/// `after` is `before` once the deliveries of `plan` were made, whatever
/// their outcomes: the subscribers that failed to take a message are no
/// longer active, and nothing else changes.
pub open spec fn delivered(before: Registries, after: Registries, plan: Seq<DeliveryView>) -> bool {
    &&& after.pending@ == before.pending@
    &&& after.publishers@ == before.publishers@
    &&& after.retained@ == before.retained@
    &&& exists|outcomes: Seq<bool>|
        outcomes.len() == plan.len() && after.active@ == before.active@.filter(
            #[trigger] not_failed(plan, outcomes),
        )
}

/// The four registries.
pub struct Registries {
    /// Subscribers registered and not yet confirmed, by identifier.
    pub pending: HashMap<u128, Subscriber>,
    /// Known publishers, by identifier.
    pub publishers: HashMap<u128, Publisher>,
    /// Confirmed subscribers in the order they were confirmed; those of a
    /// topic, in this order, are the topic's active sequence.
    pub active: Vec<Subscriber>,
    /// The latest message of each topic, publisher and subject.
    pub retained: Vec<Message>,
}

impl Registries {
    /// The abstract value of the retained messages, in order.
    pub open spec fn retained_view(&self) -> Seq<MessageView> {
        messages_view(self.retained@)
    }

    /// The registries are well formed: each entry is filed under its own
    /// identifier, no two retained messages share a key, and every retained
    /// message belongs to a known publisher.
    pub open spec fn wf(&self) -> bool {
        &&& forall|id: u128| #[trigger]
            self.pending@.contains_key(id) ==> self.pending@[id].id == id
        &&& forall|id: u128| #[trigger]
            self.publishers@.contains_key(id) ==> self.publishers@[id].id == id
        &&& unique_keys(self.retained_view())
        &&& forall|i: int|
            0 <= i < self.retained@.len() ==> self.publishers@.contains_key(
                #[trigger] self.retained@[i].publisher,
            )
    }

    /// No subscriber identifier is both pending and active.
    pub open spec fn ids_disjoint(&self) -> bool {
        forall|i: int|
            0 <= i < self.active@.len() ==> !self.pending@.contains_key(
                #[trigger] self.active@[i].id,
            )
    }

    /// Whether `id` is the identifier of an active subscriber.
    pub open spec fn is_active(&self, id: u128) -> bool {
        exists|i: int| 0 <= i < self.active@.len() && #[trigger] self.active@[i].id == id
    }

    /// Empty registries.
    pub fn new() -> (r: Self)
        ensures
            r.wf(),
            r.ids_disjoint(),
            r.pending@ == Map::<u128, Subscriber>::empty(),
            r.publishers@ == Map::<u128, Publisher>::empty(),
            r.active@ == Seq::<Subscriber>::empty(),
            r.retained@ == Seq::<Message>::empty(),
    {
        Registries {
            pending: HashMap::new(),
            publishers: HashMap::new(),
            active: Vec::new(),
            retained: Vec::new(),
        }
    }

    /// Registers a subscriber as pending.
    pub fn add_pending(&mut self, s: Subscriber)
        requires
            old(self).wf(),
        ensures
            final(self).wf(),
            final(self).pending@ == old(self).pending@.insert(s.id, s),
            final(self).publishers@ == old(self).publishers@,
            final(self).active@ == old(self).active@,
            final(self).retained@ == old(self).retained@,
            old(self).ids_disjoint() && !old(self).is_active(s.id) ==> final(self).ids_disjoint(),
    {
        self.pending.insert(s.id, s);
    }

    /// Removes every occurrence of subscriber `id` from the active subscribers.
    pub fn remove_subscriber(&mut self, id: u128)
        requires
            old(self).wf(),
        ensures
            final(self).wf(),
            unsubscribe_effect(*old(self), id, *final(self)),
            old(self).ids_disjoint() ==> final(self).ids_disjoint(),
    {
        let mut kept: Vec<Subscriber> = Vec::new();
        let mut i: usize = 0;
        while i < self.active.len()
            invariant
                i <= self.active@.len(),
                kept@ == self.active@.take(i as int).filter(other_than(id)),
            decreases self.active@.len() - i,
        {
            proof {
                lemma_filter_step(self.active@, i as int, other_than(id));
            }
            if self.active[i].id != id {
                kept.push(self.active[i].clone());
            }
            i = i + 1;
        }
        assert(self.active@.take(self.active@.len() as int) =~= self.active@);
        let ghost before = self.active@;
        self.active = kept;
        proof {
            assert forall|k: int| 0 <= k < self.active@.len() implies before.contains(
                #[trigger] self.active@[k],
            ) by {
                before.lemma_filter_contains_rev(other_than(id), self.active@[k]);
                assert(self.active@.contains(self.active@[k]));
            }
        }
    }
    /// The deliveries that replay the retained messages of its topic to `s`.
    fn replay_plan(&self, s: &Subscriber) -> (plan: Vec<Delivery>)
        ensures
            plan_view(plan@) == replay(*s, self.retained_view()),
    {
        let ghost r = self.retained_view();
        let ghost p = message_on_topic(s.topic@);
        let ghost f = |m: MessageView| publish_to(*s, m);
        let mut plan: Vec<Delivery> = Vec::new();
        let mut i: usize = 0;
        while i < self.retained.len()
            invariant
                i <= self.retained@.len(),
                r == self.retained_view(),
                p == message_on_topic(s.topic@),
                f == (|m: MessageView| publish_to(*s, m)),
                plan_view(plan@) == r.take(i as int).filter(p).map_values(f),
            decreases self.retained@.len() - i,
        {
            proof {
                lemma_filter_step(r, i as int, p);
            }
            let ghost before = plan@;
            if self.retained[i].topic == s.topic {
                plan.push(
                    Delivery {
                        kind: DeliveryKind::Publish,
                        subscriber: s.id,
                        callback: s.callback.clone(),
                        message: self.retained[i].clone(),
                    },
                );
                assert(plan_view(plan@) =~= plan_view(before).push(f(r[i as int])));
            }
            i = i + 1;
            assert(plan_view(plan@) =~= r.take(i as int).filter(p).map_values(f));
        }
        assert(r.take(r.len() as int) =~= r);
        plan
    }

    /// Confirms a pending subscriber: it leaves `pending`, joins the end of
    /// `active`, and is sent every retained message of its topic. An
    /// identifier that is not pending changes nothing and asks for nothing.
    pub fn touch_subscriber(&mut self, id: u128) -> (plan: Vec<Delivery>)
        requires
            old(self).wf(),
        ensures
            final(self).wf(),
            touch_effect(*old(self), id, *final(self), plan_view(plan@)),
            old(self).ids_disjoint() ==> final(self).ids_disjoint(),
    {
        match self.pending.remove(&id) {
            Some(s) => {
                let plan = self.replay_plan(&s);
                self.active.push(s);
                proof {
                    if old(self).ids_disjoint() {
                        assert forall|i: int| 0 <= i < self.active@.len() implies !self.pending@.contains_key(
                            #[trigger] self.active@[i].id,
                        ) by {
                            if i == self.active@.len() - 1 {
                                assert(self.active@[i].id == id);
                            } else {
                                assert(self.active@[i] == old(self).active@[i]);
                            }
                        }
                    }
                }
                plan
            },
            None => {
                assert(old(self).pending@.remove(id) =~= old(self).pending@);
                Vec::new()
            },
        }
    }
    /// The deliveries that send `m` to every active subscriber of its topic.
    fn fan_out_plan(&self, m: &Message) -> (plan: Vec<Delivery>)
        ensures
            plan_view(plan@) == fan_out(self.active@, m@),
    {
        let ghost a = self.active@;
        let ghost p = on_topic(m.topic@);
        let ghost f = |s: Subscriber| publish_to(s, m@);
        let mut plan: Vec<Delivery> = Vec::new();
        let mut i: usize = 0;
        while i < self.active.len()
            invariant
                i <= a.len(),
                a == self.active@,
                p == on_topic(m.topic@),
                f == (|s: Subscriber| publish_to(s, m@)),
                plan_view(plan@) == a.take(i as int).filter(p).map_values(f),
            decreases a.len() - i,
        {
            proof {
                lemma_filter_step(a, i as int, p);
            }
            let ghost before = plan@;
            if self.active[i].topic == m.topic {
                plan.push(
                    Delivery {
                        kind: DeliveryKind::Publish,
                        subscriber: self.active[i].id,
                        callback: self.active[i].callback.clone(),
                        message: m.clone(),
                    },
                );
                assert(plan_view(plan@) =~= plan_view(before).push(f(a[i as int])));
            }
            i = i + 1;
            assert(plan_view(plan@) =~= a.take(i as int).filter(p).map_values(f));
        }
        assert(a.take(a.len() as int) =~= a);
        plan
    }

    /// Appends to `plan` the deliveries that retract `m` from every active
    /// subscriber of its topic.
    fn push_retractions(&self, m: &Message, plan: &mut Vec<Delivery>)
        ensures
            plan_view(final(plan)@) == plan_view(old(plan)@) + retract_fan_out(self.active@, m@),
    {
        let ghost a = self.active@;
        let ghost p = on_topic(m.topic@);
        let ghost f = |s: Subscriber| retract_to(s, m@);
        let ghost start = plan_view(plan@);
        let mut i: usize = 0;
        while i < self.active.len()
            invariant
                i <= a.len(),
                a == self.active@,
                p == on_topic(m.topic@),
                f == (|s: Subscriber| retract_to(s, m@)),
                plan_view(plan@) == start + a.take(i as int).filter(p).map_values(f),
            decreases a.len() - i,
        {
            proof {
                lemma_filter_step(a, i as int, p);
            }
            let ghost before = plan@;
            if self.active[i].topic == m.topic {
                let retracted = Message {
                    publisher: m.publisher,
                    topic: m.topic.clone(),
                    subject: m.subject.clone(),
                    headers: crate::models::clone_headers(&m.headers),
                    body: String::new(),
                };
                plan.push(
                    Delivery {
                        kind: DeliveryKind::Remove,
                        subscriber: self.active[i].id,
                        callback: self.active[i].callback.clone(),
                        message: retracted,
                    },
                );
                assert(retracted@ =~= retraction(m@));
                assert(plan_view(plan@) =~= plan_view(before).push(f(a[i as int])));
            }
            i = i + 1;
            assert(plan_view(plan@) =~= start + a.take(i as int).filter(p).map_values(f));
        }
        assert(a.take(a.len() as int) =~= a);
    }

    /// Adds publisher `id`, seen at `now`, replacing any record of it.
    pub fn add_publisher(&mut self, id: u128, now: i64)
        requires
            old(self).wf(),
        ensures
            final(self).wf(),
            add_publisher_effect(*old(self), id, now, *final(self)),
    {
        self.publishers.insert(id, Publisher::seen_at(id, now));
    }

    /// Records that publisher `id` was seen at `now`; an unknown publisher
    /// is an error that names it.
    pub fn touch_publisher(&mut self, id: u128, now: i64) -> (r: Result<(), String>)
        requires
            old(self).wf(),
        ensures
            final(self).wf(),
            final(self).pending@ == old(self).pending@,
            final(self).active@ == old(self).active@,
            final(self).retained@ == old(self).retained@,
            old(self).publishers@.contains_key(id) ==> r is Ok && final(self).publishers@
                == old(self).publishers@.insert(id, seen(id, now)),
            !old(self).publishers@.contains_key(id) ==> {
                &&& final(self).publishers@ == old(self).publishers@
                &&& r matches Err(e) && e@ == unknown_publisher_text(id)
            },
    {
        if self.publishers.contains_key(&id) {
            self.publishers.insert(id, Publisher::seen_at(id, now));
            Ok(())
        } else {
            let text = id_text(id);
            Err(String::from_str("Touching unknown publisher with id: ").concat(text.as_str()))
        }
    }
    /// Retains `m` under its key, replacing the message held there.
    fn store(&mut self, m: Message)
        requires
            old(self).wf(),
            old(self).publishers@.contains_key(m.publisher),
        ensures
            final(self).wf(),
            final(self).retained_view() == upserted(old(self).retained_view(), m@),
            final(self).pending@ == old(self).pending@,
            final(self).publishers@ == old(self).publishers@,
            final(self).active@ == old(self).active@,
    {
        let ghost r = self.retained_view();
        let mut i: usize = 0;
        while i < self.retained.len()
            invariant
                i <= self.retained@.len(),
                r == self.retained_view(),
                *self == *old(self),
                self.wf(),
                unique_keys(r),
                forall|j: int| 0 <= j < i ==> #[trigger] r[j].key() != m@.key(),
            decreases self.retained@.len() - i,
        {
            if self.retained[i].topic == m.topic && self.retained[i].publisher == m.publisher
                && self.retained[i].subject == m.subject {
                proof {
                    assert(r[i as int].key() == m@.key());
                    let c = choose|c: int| 0 <= c < r.len() && #[trigger] r[c].key() == m@.key();
                    assert(c == i);
                }
                self.retained[i] = m;
                proof {
                    assert(self.retained_view() =~= upserted(r, m@));
                    assert(self.pending@ == old(self).pending@);
                    let v = self.retained_view();
                    assert forall|a: int| 0 <= a < v.len() implies #[trigger] v[a].key()
                        == r[a].key() by {
                        if a != i {
                            assert(v[a] == r[a]);
                        }
                    }
                    assert(unique_keys(v));
                    assert(self.publishers == old(self).publishers);
                    assert(self.pending == old(self).pending);

                }
                return;
            }
            i = i + 1;
        }
        self.retained.push(m);
        assert(self.retained_view() =~= upserted(r, m@));
        assert(forall|j: int| 0 <= j < old(self).retained@.len() ==> self.retained@[j] == old(self).retained@[j]);
    }

    /// Drops the retained message with key `k`, if there is one.
    fn drop_key(&mut self, k: &Message)
        requires
            old(self).wf(),
        ensures
            final(self).wf(),
            final(self).retained_view() == old(self).retained_view().filter(not_at(k@.key())),
            final(self).pending@ == old(self).pending@,
            final(self).publishers@ == old(self).publishers@,
            final(self).active@ == old(self).active@,
    {
        let ghost r = self.retained_view();
        let ghost p = not_at(k@.key());
        let mut kept: Vec<Message> = Vec::new();
        let mut i: usize = 0;
        while i < self.retained.len()
            invariant
                i <= self.retained@.len(),
                r == self.retained_view(),
                unique_keys(r),
                p == not_at(k@.key()),
                messages_view(kept@) == r.take(i as int).filter(p),
                unique_keys(messages_view(kept@)),
                *self == *old(self),
                self.wf(),
                forall|j: int| 0 <= j < kept@.len() ==> self.publishers@.contains_key(
                    #[trigger] kept@[j].publisher,
                ),
            decreases self.retained@.len() - i,
        {
            proof {
                lemma_filter_step(r, i as int, p);
            }
            if !(self.retained[i].topic == k.topic && self.retained[i].publisher == k.publisher
                && self.retained[i].subject == k.subject) {
                let ghost before = messages_view(kept@);
                proof {
                    assert forall|j: int| 0 <= j < before.len() implies #[trigger] before[j].key()
                        != r[i as int].key() by {
                        r.take(i as int).lemma_filter_contains_rev(p, before[j]);
                        assert(before.contains(before[j]));
                    }
                }
                kept.push(self.retained[i].clone());
                assert(messages_view(kept@) =~= before.push(r[i as int]));
            }
            i = i + 1;
        }
        assert(r.take(r.len() as int) =~= r);
        self.retained = kept;
    }

    /// Accepts a message: its headers are taken out of the `info-`
    /// namespace; a message of an unknown publisher is ignored; otherwise the
    /// publisher is seen at `now`, the message is retained under its key, and
    /// it is sent to every active subscriber of its topic.
    pub fn publish_message(&mut self, m: Message, now: i64) -> (plan: Vec<Delivery>)
        requires
            old(self).wf(),
        ensures
            final(self).wf(),
            publish_effect(*old(self), m@, now, *final(self), plan_view(plan@)),
    {
        let h = unformat_headers(&m.headers);
        let msg = m.with_headers(h);
        if self.publishers.contains_key(&msg.publisher) {
            self.publishers.insert(msg.publisher, Publisher::seen_at(msg.publisher, now));
            let plan = self.fan_out_plan(&msg);
            self.store(msg);
            plan
        } else {
            Vec::new()
        }
    }

    /// Retracts a message: for a known publisher, it is seen at `now`, the
    /// message retained under the key of `m` is dropped, and every active
    /// subscriber of the topic is told, with an empty body; for an unknown
    /// one nothing happens.
    pub fn remove(&mut self, m: Message, now: i64) -> (plan: Vec<Delivery>)
        requires
            old(self).wf(),
        ensures
            final(self).wf(),
            retract_effect(*old(self), m@, now, *final(self), plan_view(plan@)),
    {
        let mut plan: Vec<Delivery> = Vec::new();
        if self.publishers.contains_key(&m.publisher) {
            self.publishers.insert(m.publisher, Publisher::seen_at(m.publisher, now));
            self.drop_key(&m);
            self.push_retractions(&m, &mut plan);
            assert(plan_view(plan@) =~= retract_fan_out(old(self).active@, m@));
        }
        plan
    }

    /// Removes publisher `id` with every message it has retained, and
    /// retracts each of those messages from every active subscriber of its
    /// topic. An unknown publisher changes nothing.
    pub fn remove_publisher(&mut self, id: u128) -> (plan: Vec<Delivery>)
        requires
            old(self).wf(),
        ensures
            final(self).wf(),
            remove_publisher_effect(*old(self), id, *final(self), plan_view(plan@)),
    {
        let mut plan: Vec<Delivery> = Vec::new();
        if self.publishers.remove(&id).is_none() {
            assert(old(self).publishers@.remove(id) =~= old(self).publishers@);
            return plan;
        }
        let ghost r = self.retained_view();
        assert(forall|j: int| 0 <= j < self.retained@.len() ==> #[trigger] self.retained@[j].publisher == id
            || self.publishers@.contains_key(self.retained@[j].publisher));
        let ghost keep = not_from(id);
        let ghost gone = from_publisher(id);
        let mut kept: Vec<Message> = Vec::new();
        let mut i: usize = 0;
        while i < self.retained.len()
            invariant
                i <= self.retained@.len(),
                r == self.retained_view(),
                unique_keys(r),
                keep == not_from(id),
                gone == from_publisher(id),
                messages_view(kept@) == r.take(i as int).filter(keep),
                unique_keys(messages_view(kept@)),
                plan_view(plan@) == retractions(r.take(i as int).filter(gone), self.active@),
                self.publishers@ == old(self).publishers@.remove(id),
                self.pending@ == old(self).pending@,
                self.active@ == old(self).active@,
                self.retained@ == old(self).retained@,
                forall|j: int| 0 <= j < self.retained@.len() ==> #[trigger] self.retained@[j].publisher == id
                    || self.publishers@.contains_key(self.retained@[j].publisher),
                forall|j: int| 0 <= j < kept@.len() ==> self.publishers@.contains_key(
                    #[trigger] kept@[j].publisher,
                ),
            decreases self.retained@.len() - i,
        {
            proof {
                lemma_filter_step(r, i as int, keep);
                lemma_filter_step(r, i as int, gone);
            }
            if self.retained[i].publisher != id {
                let ghost before = messages_view(kept@);
                proof {
                    assert forall|j: int| 0 <= j < before.len() implies #[trigger] before[j].key()
                        != r[i as int].key() by {
                        r.take(i as int).lemma_filter_contains_rev(keep, before[j]);
                        assert(before.contains(before[j]));
                    }
                }
                kept.push(self.retained[i].clone());
                assert(messages_view(kept@) =~= before.push(r[i as int]));
            } else {
                self.push_retractions(&self.retained[i], &mut plan);
                proof {
                    let g = r.take(i as int).filter(gone);
                    assert(g.push(r[i as int]).drop_last() =~= g);
                }
            }
            i = i + 1;
        }
        assert(r.take(r.len() as int) =~= r);
        self.retained = kept;
        plan
    }

    /// Whether the plan holds a failed delivery of a message to `id`.
    fn failed_for(plan: &Vec<Delivery>, outcomes: &Vec<bool>, id: u128) -> (r: bool)
        requires
            plan@.len() == outcomes@.len(),
        ensures
            r == publish_failed(plan_view(plan@), outcomes@, id),
    {
        let mut i: usize = 0;
        while i < plan.len()
            invariant
                i <= plan@.len(),
                plan@.len() == outcomes@.len(),
                forall|j: int|
                    0 <= j < i ==> !(!outcomes@[j] && plan_view(plan@)[j].kind
                        == DeliveryKind::Publish && #[trigger] plan_view(plan@)[j].subscriber == id),
            decreases plan@.len() - i,
        {
            if !outcomes[i] && plan[i].kind == DeliveryKind::Publish && plan[i].subscriber == id {
                assert(plan_view(plan@)[i as int].subscriber == id);
                return true;
            }
            i = i + 1;
        }
        false
    }

    /// Carries the outcome of a plan back: every subscriber to which a
    /// message could not be delivered leaves the active subscribers. A
    /// failed retraction changes nothing.
    pub fn apply_outcomes(&mut self, plan: &Vec<Delivery>, outcomes: &Vec<bool>)
        requires
            old(self).wf(),
            plan@.len() == outcomes@.len(),
        ensures
            final(self).wf(),
            final(self).active@ == old(self).active@.filter(
                not_failed(plan_view(plan@), outcomes@),
            ),
            final(self).pending@ == old(self).pending@,
            final(self).publishers@ == old(self).publishers@,
            final(self).retained@ == old(self).retained@,
            old(self).ids_disjoint() ==> final(self).ids_disjoint(),
    {
        let ghost p = not_failed(plan_view(plan@), outcomes@);
        let mut kept: Vec<Subscriber> = Vec::new();
        let mut i: usize = 0;
        while i < self.active.len()
            invariant
                i <= self.active@.len(),
                plan@.len() == outcomes@.len(),
                p == not_failed(plan_view(plan@), outcomes@),
                kept@ == self.active@.take(i as int).filter(p),
            decreases self.active@.len() - i,
        {
            proof {
                lemma_filter_step(self.active@, i as int, p);
            }
            if !Self::failed_for(plan, outcomes, self.active[i].id) {
                kept.push(self.active[i].clone());
            }
            i = i + 1;
        }
        assert(self.active@.take(self.active@.len() as int) =~= self.active@);
        let ghost before = self.active@;
        self.active = kept;
        proof {
            assert forall|k: int| 0 <= k < self.active@.len() implies before.contains(
                #[trigger] self.active@[k],
            ) by {
                before.lemma_filter_contains_rev(p, self.active@[k]);
                assert(self.active@.contains(self.active@[k]));
            }
        }
    }
}

} // verus!

//! The broker: the registries together with the delivery client that
//! carries out what each operation decides.
use crate::ident::new_id;
use crate::models::{now_millis, Message, Subscriber, Topic};
use crate::registry::{
    delivered, plan_view, publish_effect, remove_publisher_effect, retract_effect, seen,
    touch_effect, unsubscribe_effect, add_publisher_effect, Delivery, Registries,
};
use crate::rest::{Response, Routed};
use crate::subscribers::{dispatch, Subscribers};
use vstd::prelude::*;

verus! {

/// A broker. Each operation first settles the registries and the plan of
/// deliveries that follows from them, then makes the deliveries, then lets
/// failed deliveries of messages unsubscribe their subscribers.
pub struct PubSubServer<S: Subscribers> {
    pub subs_service: S,
    pub registries: Registries,
}

impl<S: Subscribers> PubSubServer<S> {
    /// The registries are well formed.
    pub open spec fn wf(&self) -> bool {
        self.registries.wf()
    }

    /// A broker with empty registries that delivers through `client`.
    pub fn with_service(client: S) -> (r: Self)
        ensures
            r.wf(),
            r.registries.ids_disjoint(),
            r.subs_service == client,
            r.registries.pending@.len() == 0,
            r.registries.publishers@.len() == 0,
            r.registries.active@.len() == 0,
            r.registries.retained@.len() == 0,
    {
        PubSubServer { subs_service: client, registries: Registries::new() }
    }

    /// Makes the deliveries of `plan` and applies their outcomes.
    pub fn deliver(&mut self, plan: &Vec<Delivery>)
        requires
            old(self).wf(),
        ensures
            final(self).wf(),
            delivered(old(self).registries, final(self).registries, plan_view(plan@)),
            final(self).subs_service == old(self).subs_service,
            old(self).registries.ids_disjoint() ==> final(self).registries.ids_disjoint(),
    {
        let outcomes = dispatch(&self.subs_service, plan);
        self.registries.apply_outcomes(plan, &outcomes);
        assert(outcomes@.len() == plan_view(plan@).len());
    }

    /// Makes the deliveries that a request asked for, and gives its answer.
    pub fn serve(&mut self, routed: Routed) -> (r: Response)
        requires
            old(self).wf(),
        ensures
            final(self).wf(),
            r == routed.response,
            delivered(old(self).registries, final(self).registries, plan_view(routed.deliveries@)),
            old(self).registries.ids_disjoint() ==> final(self).registries.ids_disjoint(),
    {
        self.deliver(&routed.deliveries);
        routed.response
    }

    /// Registers a subscriber to `topic` with callback `callback`, pending
    /// until its first touch, under a new random identifier, which is
    /// returned.
    pub fn add_pending_subscriber(&mut self, callback: String, topic: Topic) -> (id: u128)
        requires
            old(self).wf(),
        ensures
            final(self).wf(),
            final(self).registries.pending@ == old(self).registries.pending@.insert(
                id,
                Subscriber { id, callback, topic },
            ),
            final(self).registries.publishers@ == old(self).registries.publishers@,
            final(self).registries.active@ == old(self).registries.active@,
            final(self).registries.retained@ == old(self).registries.retained@,
            old(self).registries.ids_disjoint() && !old(self).registries.is_active(id)
                ==> final(self).registries.ids_disjoint(),
    {
        let sub = Subscriber::with_id(new_id(), callback, topic);
        let id = sub.id;
        self.registries.add_pending(sub);
        id
    }

    /// Unsubscribes `id`: every occurrence of it leaves the active
    /// subscribers; pending subscribers are untouched.
    pub fn remove_subscriber(&mut self, id: u128)
        requires
            old(self).wf(),
        ensures
            final(self).wf(),
            unsubscribe_effect(old(self).registries, id, final(self).registries),
            old(self).registries.ids_disjoint() ==> final(self).registries.ids_disjoint(),
    {
        self.registries.remove_subscriber(id);
    }

    /// Confirms subscriber `id` and replays to it the retained messages of
    /// its topic; a subscriber that fails to take one is unsubscribed. An
    /// identifier that is not pending is a no-op.
    pub fn touch_subscriber(&mut self, id: u128)
        requires
            old(self).wf(),
        ensures
            final(self).wf(),
            exists|mid: Registries, plan: Seq<crate::registry::DeliveryView>|
                #[trigger] touch_effect(old(self).registries, id, mid, plan) && delivered(
                    mid,
                    final(self).registries,
                    plan,
                ),
            !final(self).registries.pending@.contains_key(id),
            old(self).registries.ids_disjoint() ==> final(self).registries.ids_disjoint(),
    {
        let plan = self.registries.touch_subscriber(id);
        let ghost mid = self.registries;
        self.deliver(&plan);
        assert(touch_effect(old(self).registries, id, mid, plan_view(plan@)));
        assert(delivered(mid, self.registries, plan_view(plan@)));
    }

    /// Adds publisher `id`, seen now; a known one is replaced.
    pub fn add_publisher(&mut self, id: u128)
        requires
            old(self).wf(),
        ensures
            final(self).wf(),
            exists|now: i64|
                #[trigger] add_publisher_effect(old(self).registries, id, now, final(self).registries),
    {
        let now = now_millis();
        self.registries.add_publisher(id, now);
        assert(add_publisher_effect(old(self).registries, id, now, self.registries));
    }

    /// Removes publisher `id` and every message it retained, retracting each
    /// from the active subscribers of its topic. Failed retractions change
    /// nothing.
    pub fn remove_publisher(&mut self, id: u128)
        requires
            old(self).wf(),
        ensures
            final(self).wf(),
            exists|mid: Registries, plan: Seq<crate::registry::DeliveryView>|
                #[trigger] remove_publisher_effect(old(self).registries, id, mid, plan) && delivered(
                    mid,
                    final(self).registries,
                    plan,
                ),
    {
        let plan = self.registries.remove_publisher(id);
        let ghost mid = self.registries;
        self.deliver(&plan);
        assert(remove_publisher_effect(old(self).registries, id, mid, plan_view(plan@)));
        assert(delivered(mid, self.registries, plan_view(plan@)));
    }

    /// Records that publisher `id` was seen now; an unknown publisher is an
    /// error whose text names it.
    pub fn touch_publisher(&mut self, id: u128) -> (r: Result<(), String>)
        requires
            old(self).wf(),
        ensures
            final(self).wf(),
            final(self).registries.pending@ == old(self).registries.pending@,
            final(self).registries.active@ == old(self).registries.active@,
            final(self).registries.retained@ == old(self).registries.retained@,
            old(self).registries.publishers@.contains_key(id) ==> r is Ok && exists|now: i64|
                final(self).registries.publishers@ == old(self).registries.publishers@.insert(
                    id,
                    #[trigger] seen(id, now),
                ),
            !old(self).registries.publishers@.contains_key(id) ==> {
                &&& final(self).registries.publishers@ == old(self).registries.publishers@
                &&& r matches Err(e) && e@ == crate::registry::unknown_publisher_text(id)
            },
    {
        let now = now_millis();
        self.registries.touch_publisher(id, now)
    }

    /// Publishes `m`: for a known publisher the message is retained and sent
    /// to every active subscriber of its topic, and a subscriber that fails
    /// to take it is unsubscribed; a message of an unknown publisher is
    /// ignored.
    pub fn publish_message(&mut self, m: Message)
        requires
            old(self).wf(),
        ensures
            final(self).wf(),
            exists|now: i64, mid: Registries, plan: Seq<crate::registry::DeliveryView>|
                #[trigger] publish_effect(old(self).registries, m@, now, mid, plan) && delivered(
                    mid,
                    final(self).registries,
                    plan,
                ),
    {
        let now = now_millis();
        let ghost mv = m@;
        let plan = self.registries.publish_message(m, now);
        let ghost mid = self.registries;
        self.deliver(&plan);
        assert(publish_effect(old(self).registries, mv, now, mid, plan_view(plan@)));
        assert(delivered(mid, self.registries, plan_view(plan@)));
    }

    /// Retracts `m`: for a known publisher the message retained under its
    /// key is dropped and every active subscriber of the topic is told;
    /// failed retractions change nothing.
    pub fn remove(&mut self, m: Message)
        requires
            old(self).wf(),
        ensures
            final(self).wf(),
            exists|now: i64, mid: Registries, plan: Seq<crate::registry::DeliveryView>|
                #[trigger] retract_effect(old(self).registries, m@, now, mid, plan) && delivered(
                    mid,
                    final(self).registries,
                    plan,
                ),
    {
        let now = now_millis();
        let ghost mv = m@;
        let plan = self.registries.remove(m, now);
        let ghost mid = self.registries;
        self.deliver(&plan);
        assert(retract_effect(old(self).registries, mv, now, mid, plan_view(plan@)));
        assert(delivered(mid, self.registries, plan_view(plan@)));
    }
}

} // verus!

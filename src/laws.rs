//! Properties that hold across the broker's operations.
use crate::models::{MessageKey, MessageView, Subscriber};
use crate::registry::{
    canonical, from_publisher, listeners, not_from, other_than, on_topic,
    add_publisher_effect, publish_effect, publish_to, unsubscribe_effect, remove_publisher_effect, retract_fan_out, retract_to,
    retractions, seen, touch_effect, unique_keys, upserted, DeliveryView, Registries,
    message_on_topic, replay,
};
use vstd::prelude::*;

verus! {

/// The retained messages as the three-level index reads them: for each key,
/// the message filed under it.
pub open spec fn retained_index(r: Seq<MessageView>) -> Map<MessageKey, MessageView>
    decreases r.len(),
{
    if r.len() == 0 {
        Map::empty()
    } else {
        retained_index(r.drop_last()).insert(r.last().key(), r.last())
    }
}

proof fn lemma_index_keys(r: Seq<MessageView>)
    ensures
        forall|k: MessageKey| #[trigger]
            retained_index(r).contains_key(k) ==> retained_index(r)[k].key() == k,
    decreases r.len(),
{
    if r.len() > 0 {
        lemma_index_keys(r.drop_last());
        let m = retained_index(r);
        assert forall|k: MessageKey| #[trigger] m.contains_key(k) implies m[k].key() == k by {
            if k != r.last().key() {
                assert(retained_index(r.drop_last()).contains_key(k));
            }
        }
    }
}

/// Every message retained under topic `t`, publisher `p` and subject `s`
/// has topic `t`, publisher `p` and subject `s`.
pub proof fn lemma_retained_under_own_key(reg: Registries, t: Seq<char>, p: u128, s: Seq<char>)
    requires
        reg.wf(),
        retained_index(reg.retained_view()).contains_key((t, p, s)),
    ensures
        ({
            let m = retained_index(reg.retained_view())[(t, p, s)];
            m.topic == t && m.publisher == p && m.subject == s
        }),
{
    lemma_index_keys(reg.retained_view());
}

proof fn lemma_filter_twice(a: Seq<Subscriber>, id: u128)
    ensures
        a.filter(other_than(id)).filter(other_than(id)) == a.filter(other_than(id)),
    decreases a.len(),
{
    reveal(Seq::filter);
    if a.len() > 0 {
        lemma_filter_twice(a.drop_last(), id);
        let f = a.drop_last().filter(other_than(id));
        if a.last().id != id {
            assert(f.push(a.last()).drop_last() =~= f);
        }
    }
}

/// Unsubscribing twice has the same effect on every registry as
/// unsubscribing once.
pub proof fn lemma_unsubscribe_idempotent(r0: Registries, id: u128, r1: Registries, r2: Registries)
    requires
        unsubscribe_effect(r0, id, r1),
        unsubscribe_effect(r1, id, r2),
    ensures
        unsubscribe_effect(r0, id, r2),
        r2.active@ == r1.active@,
        r2.pending@ == r1.pending@,
        r2.publishers@ == r1.publishers@,
        r2.retained@ == r1.retained@,
{
    lemma_filter_twice(r0.active@, id);
}

/// Adding a publisher twice leaves every registry as adding it once does,
/// but for the time it was last seen: the record is that of the second
/// call, and the publishers known are the same as after the first.
pub proof fn lemma_add_publisher_twice(
    r0: Registries,
    id: u128,
    first: i64,
    r1: Registries,
    second: i64,
    r2: Registries,
)
    requires
        add_publisher_effect(r0, id, first, r1),
        add_publisher_effect(r1, id, second, r2),
    ensures
        add_publisher_effect(r0, id, second, r2),
        r2.publishers@.dom() == r1.publishers@.dom(),
        r2.publishers@.remove(id) == r1.publishers@.remove(id),
        r2.pending@ == r1.pending@,
        r2.active@ == r1.active@,
        r2.retained@ == r1.retained@,
{
    let m = r0.publishers@;
    assert(m.insert(id, seen(id, first)).insert(id, seen(id, second)) =~= m.insert(id, seen(id, second)));
    assert(r2.publishers@.dom() =~= r1.publishers@.dom());
    assert(r2.publishers@.remove(id) =~= r1.publishers@.remove(id));
}

proof fn lemma_retractions_cover(removed: Seq<MessageView>, active: Seq<Subscriber>, i: int, j: int)
    requires
        0 <= i < removed.len(),
        0 <= j < active.len(),
        active[j].topic@ == removed[i].topic,
    ensures
        retractions(removed, active).contains(retract_to(active[j], removed[i])),
    decreases removed.len(),
{
    let rest = retractions(removed.drop_last(), active);
    let last = retract_fan_out(active, removed.last());
    assert(retractions(removed, active) == rest + last);
    if i < removed.len() - 1 {
        lemma_retractions_cover(removed.drop_last(), active, i, j);
        let k = choose|k: int| 0 <= k < rest.len() && rest[k] == retract_to(active[j], removed[i]);
        assert((rest + last)[k] == rest[k]);
    } else {
        let l = listeners(active, removed[i].topic);
        active.lemma_filter_contains(on_topic(removed[i].topic), j);
        assert(l.contains(active[j]));
        let k = choose|k: int| 0 <= k < l.len() && l[k] == active[j];
        assert(last[k] == retract_to(active[j], removed[i]));
        assert((rest + last)[rest.len() + k] == last[k]);
    }
}

/// Once publisher `p` is removed, no message of it is retained, and the
/// plan retracts every message it had retained from every subscriber that
/// was active on that message's topic.
pub proof fn lemma_remove_publisher_complete(
    before: Registries,
    p: u128,
    after: Registries,
    plan: Seq<DeliveryView>,
)
    requires
        before.wf(),
        after.wf(),
        remove_publisher_effect(before, p, after, plan),
    ensures
        forall|i: int| 0 <= i < after.retained@.len() ==> #[trigger] after.retained@[i].publisher != p,
        forall|i: int, j: int|
            0 <= i < before.retained@.len() && 0 <= j < before.active@.len()
                && before.retained@[i].publisher == p && before.active@[j].topic@
                == before.retained@[i].topic@ ==> plan.contains(
                retract_to(#[trigger] before.active@[j], #[trigger] before.retained@[i]@),
            ),
{
    let r = before.retained_view();
    if before.publishers@.contains_key(p) {
        assert forall|i: int| 0 <= i < after.retained@.len() implies #[trigger] after.retained@[i].publisher
            != p by {
            let v = after.retained_view();
            assert(v[i] == after.retained@[i]@);
            r.lemma_filter_pred(not_from(p), i);
        }
        assert forall|i: int, j: int|
            0 <= i < before.retained@.len() && 0 <= j < before.active@.len()
                && before.retained@[i].publisher == p && before.active@[j].topic@
                == before.retained@[i].topic@ implies plan.contains(
                retract_to(#[trigger] before.active@[j], #[trigger] before.retained@[i]@),
            ) by {
            let removed = r.filter(from_publisher(p));
            assert(r[i] == before.retained@[i]@);
            r.lemma_filter_contains(from_publisher(p), i);
            assert(removed.contains(r[i]));
            let k = choose|k: int| 0 <= k < removed.len() && removed[k] == r[i];
            lemma_retractions_cover(removed, before.active@, k, j);
        }
    } else {
        assert forall|i: int| 0 <= i < after.retained@.len() implies #[trigger] after.retained@[i].publisher
            != p by {
            assert(before.publishers@.contains_key(before.retained@[i].publisher));
        }
    }
}

/// A message of an unknown publisher leaves the retained messages as they
/// were.
pub proof fn lemma_publish_unknown_keeps_retained(
    before: Registries,
    m: MessageView,
    now: i64,
    after: Registries,
    plan: Seq<DeliveryView>,
)
    requires
        publish_effect(before, m, now, after, plan),
        !before.publishers@.contains_key(m.publisher),
    ensures
        after.retained@ == before.retained@,
{
}

proof fn lemma_filter_unique(r: Seq<MessageView>, p: spec_fn(MessageView) -> bool)
    requires
        unique_keys(r),
    ensures
        unique_keys(r.filter(p)),
    decreases r.len(),
{
    reveal(Seq::filter);
    if r.len() > 0 {
        let d = r.drop_last();
        assert(unique_keys(d));
        lemma_filter_unique(d, p);
        let f = d.filter(p);
        if p(r.last()) {
            assert forall|a: int, b: int| 0 <= a < b < f.push(r.last()).len() implies f.push(
                r.last(),
            )[a].key() != f.push(r.last())[b].key() by {
                if b == f.len() {
                    assert(f.contains(f[a]));
                    d.lemma_filter_contains_rev(p, f[a]);
                    let c = choose|c: int| 0 <= c < d.len() && d[c] == f[a];
                    assert(r[c] == f[a]);
                }
            }
        }
    }
}

/// A subscriber confirmed after `m` was published to its topic by a known
/// publisher is sent `m` (as retained) exactly once by the replay.
pub proof fn lemma_replay_delivers_once(
    reg0: Registries,
    m: MessageView,
    now: i64,
    reg1: Registries,
    plan1: Seq<DeliveryView>,
    id: u128,
    reg2: Registries,
    plan2: Seq<DeliveryView>,
)
    requires
        reg0.wf(),
        reg1.wf(),
        reg0.publishers@.contains_key(m.publisher),
        publish_effect(reg0, m, now, reg1, plan1),
        reg1.pending@.contains_key(id),
        reg1.pending@[id].topic@ == m.topic,
        touch_effect(reg1, id, reg2, plan2),
    ensures
        exists|i: int| 0 <= i < plan2.len() && plan2[i] == publish_to(reg1.pending@[id], canonical(m)),
        forall|i: int, j: int|
            0 <= i < plan2.len() && 0 <= j < plan2.len() && plan2[i].message == canonical(m)
                && plan2[j].message == canonical(m) ==> i == j,
{
    let s = reg1.pending@[id];
    let c = canonical(m);
    let r0 = reg0.retained_view();
    let r1 = reg1.retained_view();
    let f = r1.filter(message_on_topic(s.topic@));
    assert(plan2 == replay(s, r1));
    assert(r1 == upserted(r0, c));
    let ic: int = if exists|i: int| 0 <= i < r0.len() && #[trigger] r0[i].key() == c.key() {
        choose|i: int| 0 <= i < r0.len() && #[trigger] r0[i].key() == c.key()
    } else {
        r0.len() as int
    };
    assert(0 <= ic < r1.len() && r1[ic] == c);
    r1.lemma_filter_contains(message_on_topic(s.topic@), ic);
    assert(f.contains(c));
    let k = choose|k: int| 0 <= k < f.len() && f[k] == c;
    assert(plan2[k] == publish_to(s, c));
    lemma_filter_unique(r1, message_on_topic(s.topic@));
    assert forall|i: int, j: int|
        0 <= i < plan2.len() && 0 <= j < plan2.len() && plan2[i].message == c && plan2[j].message
            == c implies i == j by {
        assert(f[i] == c && f[j] == c);
    }
}

} // verus!

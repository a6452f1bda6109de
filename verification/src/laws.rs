//! The delivery guarantees the dispatch core gives, stated and proved once
//! over the registry and plan models, for every registry state, channel and
//! identity.

use vstd::prelude::*;

use crate::channel::{ChannelType, ChannelView};
use crate::pattern::pattern_matches;
use crate::registry::{
    all_ids, delivery_plan, queue_ids, remove_first_with_id, topic_ids, SubscriptionView,
};

verus! {

/// Some subscription carries `id` and matches `c`.
pub open spec fn appears_matching(
    subs: Seq<SubscriptionView>,
    c: ChannelView,
    id: Seq<char>,
) -> bool {
    exists|i: int|
        0 <= i < subs.len() && (#[trigger] subs[i]).handler_id == id && pattern_matches(
            subs[i].pattern,
            c,
        )
}

/// How many subscriptions carry `id`.
pub open spec fn id_count(subs: Seq<SubscriptionView>, id: Seq<char>) -> nat
    decreases subs.len(),
{
    if subs.len() == 0 {
        0
    } else {
        id_count(subs.drop_first(), id) + (if subs.first().handler_id == id {
            1nat
        } else {
            0nat
        })
    }
}

/// An emit with no target channel delivers to every registered handler
/// exactly once, in registration order, whatever the patterns say.
pub proof fn lemma_broadcast_reaches_all(subs: Seq<SubscriptionView>)
    ensures
        delivery_plan(subs, Option::None).len() == subs.len(),
        forall|i: int|
            0 <= i < subs.len() ==> delivery_plan(subs, Option::None)[i] == subs[i].handler_id,
{
    assert(delivery_plan(subs, Option::None) == all_ids(subs));
}

/// An emit on a topic delivers to exactly the matching subscriptions'
/// handlers, in registration order: the plan is the registration sequence
/// with the non-matching subscriptions filtered away.
pub proof fn lemma_topic_broadcast_in_order(subs: Seq<SubscriptionView>, c: ChannelView)
    requires
        c.kind == ChannelType::TOPIC,
    ensures
        delivery_plan(subs, Option::Some(c)) == subs.filter(
            |s: SubscriptionView| pattern_matches(s.pattern, c),
        ).map_values(|s: SubscriptionView| s.handler_id),
    decreases subs.len(),
{
    reveal(Seq::filter);
    let pred = |s: SubscriptionView| pattern_matches(s.pattern, c);
    let to_id = |s: SubscriptionView| s.handler_id;
    if subs.len() == 0 {
        assert(topic_ids(subs, c) =~= subs.filter(pred).map_values(to_id));
    } else {
        lemma_topic_broadcast_in_order(subs.drop_last(), c);
        if pred(subs.last()) {
            assert(subs.filter(pred) == subs.drop_last().filter(pred).push(subs.last()));
            assert(subs.filter(pred).map_values(to_id) =~= subs.drop_last().filter(
                pred,
            ).map_values(to_id).push(subs.last().handler_id));
        }
        assert(topic_ids(subs, c) =~= subs.filter(pred).map_values(to_id));
    }
}

/// An emit on a queue delivers to at most one handler.
pub proof fn lemma_queue_at_most_one(subs: Seq<SubscriptionView>, c: ChannelView)
    requires
        c.kind == ChannelType::QUEUE,
    ensures
        delivery_plan(subs, Option::Some(c)).len() <= 1,
    decreases subs.len(),
{
    if subs.len() > 0 && !pattern_matches(subs.first().pattern, c) {
        lemma_queue_at_most_one(subs.drop_first(), c);
    }
}

/// On a queue, the earliest-registered matching subscription wins: when the
/// subscription at position `i` matches and none before it does, the plan is
/// exactly that subscription's handler, however many match after it.
pub proof fn lemma_queue_first_match_wins(subs: Seq<SubscriptionView>, c: ChannelView, i: int)
    requires
        c.kind == ChannelType::QUEUE,
        0 <= i < subs.len(),
        pattern_matches(subs[i].pattern, c),
        forall|j: int| 0 <= j < i ==> !pattern_matches(subs[j].pattern, c),
    ensures
        delivery_plan(subs, Option::Some(c)) == seq![subs[i].handler_id],
    decreases i,
{
    if i == 0 {
        assert(subs.first() == subs[0]);
    } else {
        assert(!pattern_matches(subs.first().pattern, c));
        assert(forall|j: int| 0 <= j < subs.drop_first().len() ==> subs.drop_first()[j] == subs[j
            + 1]);
        lemma_queue_first_match_wins(subs.drop_first(), c, i - 1);
    }
}

/// When no registered subscription matches a queue channel, nothing is
/// delivered.
pub proof fn lemma_queue_no_match_no_delivery(subs: Seq<SubscriptionView>, c: ChannelView)
    requires
        c.kind == ChannelType::QUEUE,
        forall|j: int| 0 <= j < subs.len() ==> !pattern_matches((#[trigger] subs[j]).pattern, c),
    ensures
        delivery_plan(subs, Option::Some(c)) == Seq::<Seq<char>>::empty(),
    decreases subs.len(),
{
    if subs.len() > 0 {
        assert(forall|j: int| 0 <= j < subs.drop_first().len() ==> subs.drop_first()[j] == subs[j
            + 1]);
        lemma_queue_no_match_no_delivery(subs.drop_first(), c);
    }
}

proof fn lemma_topic_only_matching(subs: Seq<SubscriptionView>, c: ChannelView)
    ensures
        forall|k: int|
            0 <= k < topic_ids(subs, c).len() ==> appears_matching(
                subs,
                c,
                #[trigger] topic_ids(subs, c)[k],
            ),
    decreases subs.len(),
{
    if subs.len() > 0 {
        lemma_topic_only_matching(subs.drop_last(), c);
        let rest = topic_ids(subs.drop_last(), c);
        let plan = topic_ids(subs, c);
        assert forall|k: int| 0 <= k < plan.len() implies appears_matching(subs, c, plan[k]) by {
            if k < rest.len() {
                assert(appears_matching(subs.drop_last(), c, rest[k]));
                let i = choose|i: int|
                    0 <= i < subs.drop_last().len() && (#[trigger] subs.drop_last()[i]).handler_id
                        == rest[k] && pattern_matches(subs.drop_last()[i].pattern, c);
                assert(subs[i] == subs.drop_last()[i]);
            } else {
                assert(pattern_matches(subs.last().pattern, c));
                assert(plan[k] == subs.last().handler_id);
                assert(subs[subs.len() - 1] == subs.last());
            }
        }
    }
}

proof fn lemma_queue_only_matching(subs: Seq<SubscriptionView>, c: ChannelView)
    ensures
        forall|k: int|
            0 <= k < queue_ids(subs, c).len() ==> appears_matching(
                subs,
                c,
                #[trigger] queue_ids(subs, c)[k],
            ),
    decreases subs.len(),
{
    if subs.len() > 0 {
        if pattern_matches(subs.first().pattern, c) {
            assert(subs[0] == subs.first());
        } else {
            lemma_queue_only_matching(subs.drop_first(), c);
            let rest = queue_ids(subs.drop_first(), c);
            assert forall|k: int| 0 <= k < rest.len() implies appears_matching(subs, c, rest[k]) by {
                assert(appears_matching(subs.drop_first(), c, rest[k]));
                let i = choose|i: int|
                    0 <= i < subs.drop_first().len() && (#[trigger] subs.drop_first()[i]).handler_id
                        == rest[k] && pattern_matches(subs.drop_first()[i].pattern, c);
                assert(subs[i + 1] == subs.drop_first()[i]);
            }
        }
    }
}

/// An emit to a channel delivers only to handlers of subscriptions whose
/// pattern matches that channel.  In particular a subscription of the wrong
/// kind — a topic subscription against a queue emit, or the reverse — is
/// never invoked, whatever its name says.
pub proof fn lemma_delivery_only_to_matching(subs: Seq<SubscriptionView>, c: ChannelView)
    ensures
        forall|k: int|
            0 <= k < delivery_plan(subs, Option::Some(c)).len() ==> appears_matching(
                subs,
                c,
                #[trigger] delivery_plan(subs, Option::Some(c))[k],
            ),
{
    lemma_topic_only_matching(subs, c);
    lemma_queue_only_matching(subs, c);
}

proof fn lemma_id_count_zero_means_absent(subs: Seq<SubscriptionView>, id: Seq<char>)
    requires
        id_count(subs, id) == 0,
    ensures
        forall|j: int| 0 <= j < subs.len() ==> (#[trigger] subs[j]).handler_id != id,
    decreases subs.len(),
{
    if subs.len() > 0 {
        lemma_id_count_zero_means_absent(subs.drop_first(), id);
        assert forall|j: int| 0 <= j < subs.len() implies (#[trigger] subs[j]).handler_id != id by {
            if j >= 1 {
                assert(subs[j] == subs.drop_first()[j - 1]);
            } else {
                assert(subs[0] == subs.first());
            }
        }
    }
}

proof fn lemma_remove_first_clears(subs: Seq<SubscriptionView>, id: Seq<char>)
    requires
        id_count(subs, id) <= 1,
    ensures
        forall|j: int|
            0 <= j < remove_first_with_id(subs, id).len() ==> (#[trigger] remove_first_with_id(
                subs,
                id,
            )[j]).handler_id != id,
    decreases subs.len(),
{
    if subs.len() > 0 {
        if subs.first().handler_id == id {
            assert(id_count(subs.drop_first(), id) == 0);
            lemma_id_count_zero_means_absent(subs.drop_first(), id);
        } else {
            lemma_remove_first_clears(subs.drop_first(), id);
            let removed = remove_first_with_id(subs, id);
            let removed_rest = remove_first_with_id(subs.drop_first(), id);
            assert(removed == seq![subs.first()] + removed_rest);
            assert(forall|j: int| 1 <= j < removed.len() ==> removed[j] == removed_rest[j - 1]);
        }
    }
}

/// Some subscription carries `id`.
pub open spec fn registered_id(subs: Seq<SubscriptionView>, id: Seq<char>) -> bool {
    exists|i: int| 0 <= i < subs.len() && (#[trigger] subs[i]).handler_id == id
}

/// Any identity an emit delivers to belongs to some registered
/// subscription.
pub proof fn lemma_delivery_only_to_registered(
    subs: Seq<SubscriptionView>,
    channel: Option<ChannelView>,
)
    ensures
        forall|k: int|
            0 <= k < delivery_plan(subs, channel).len() ==> registered_id(
                subs,
                #[trigger] delivery_plan(subs, channel)[k],
            ),
{
    match channel {
        Option::None => {
            assert forall|k: int| 0 <= k < delivery_plan(subs, channel).len() implies registered_id(
                subs,
                delivery_plan(subs, channel)[k],
            ) by {
                assert(subs[k].handler_id == delivery_plan(subs, channel)[k]);
            }
        },
        Option::Some(c) => {
            lemma_delivery_only_to_matching(subs, c);
            assert forall|k: int| 0 <= k < delivery_plan(subs, channel).len() implies registered_id(
                subs,
                delivery_plan(subs, channel)[k],
            ) by {
                assert(appears_matching(subs, c, delivery_plan(subs, channel)[k]));
                let i = choose|i: int|
                    0 <= i < subs.len() && (#[trigger] subs[i]).handler_id == delivery_plan(
                        subs,
                        channel,
                    )[k] && pattern_matches(subs[i].pattern, c);
                assert(subs[i].handler_id == delivery_plan(subs, channel)[k]);
            }
        },
    }
}

/// Registration and removal are exact inverses: registering under a fresh
/// identity and unregistering it again restores the registry, so no
/// sequence of the two loses an unrelated subscription or removes one
/// twice.
pub proof fn lemma_register_unregister_round_trip(
    subs: Seq<SubscriptionView>,
    sub: SubscriptionView,
)
    requires
        forall|j: int| 0 <= j < subs.len() ==> (#[trigger] subs[j]).handler_id != sub.handler_id,
    ensures
        remove_first_with_id(subs.push(sub), sub.handler_id) == subs,
    decreases subs.len(),
{
    let grown = subs.push(sub);
    if subs.len() == 0 {
        assert(grown.first() == sub);
        assert(grown.drop_first() =~= subs);
    } else {
        assert(grown.first() == subs[0]);
        assert(grown.first().handler_id != sub.handler_id);
        assert(grown.drop_first() =~= subs.drop_first().push(sub));
        assert(forall|j: int| 0 <= j < subs.drop_first().len() ==> subs.drop_first()[j] == subs[j
            + 1]);
        lemma_register_unregister_round_trip(subs.drop_first(), sub);
        assert(seq![subs[0]] + subs.drop_first() =~= subs);
    }
}

/// Unregistering an identity that at most one subscription carries silences
/// it: no emit of any kind delivers to it afterwards.  Unregistering the
/// same identity a second time changes nothing.
pub proof fn lemma_unregister_silences(
    subs: Seq<SubscriptionView>,
    id: Seq<char>,
    channel: Option<ChannelView>,
)
    requires
        id_count(subs, id) <= 1,
    ensures
        !delivery_plan(remove_first_with_id(subs, id), channel).contains(id),
        remove_first_with_id(remove_first_with_id(subs, id), id) == remove_first_with_id(subs, id),
{
    let removed = remove_first_with_id(subs, id);
    lemma_remove_first_clears(subs, id);
    lemma_delivery_only_to_registered(removed, channel);
    if delivery_plan(removed, channel).contains(id) {
        let k = choose|k: int|
            0 <= k < delivery_plan(removed, channel).len() && delivery_plan(removed, channel)[k]
                == id;
        assert(registered_id(removed, delivery_plan(removed, channel)[k]));
        let i = choose|i: int|
            0 <= i < removed.len() && (#[trigger] removed[i]).handler_id == id;
        assert(false);
    }
    crate::registry::lemma_remove_first_with_id_absent(removed, id);
}

} // verus!

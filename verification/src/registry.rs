//! The subscription registry and the dispatcher.
//!
//! The registry is an ordered sequence of subscriptions; insertion order is
//! significant, because the earliest-registered matching subscriber wins on
//! a queue.  The dispatcher is stateless: given the subscriptions and an
//! optional target channel it invokes the handlers the delivery rules pick,
//! and returns their identities in invocation order.
//!
//! A registry is an explicit object, constructed once and passed by
//! reference; callers that share one between threads put it behind their own
//! lock, take a `snapshot` under the lock, and dispatch over the snapshot
//! after releasing it, so that a handler may re-enter the registry freely.

use vstd::prelude::*;

use crate::channel::{ChannelType, ChannelView, MessageChannel};
use crate::model::{EventHandler, RegistryError};
use crate::pattern::{pattern_matches, str_eq, ChannelPattern, PatternView};
use crate::pattern::{compilable, spec_matcher_of, MatcherView, NameMatcher};

verus! {

/// A registered (pattern, handler) pair.  Created by `register`, removed by
/// `unregister`, otherwise immutable.
pub struct Subscription<H> {
    pub pattern: ChannelPattern,
    pub handler_id: String,
    pub handler: H,
}

/// Mathematical image of a subscription: the pattern and the handler's
/// identity.  The handler itself is opaque behaviour and has no image.
#[verifier::ext_equal]
pub struct SubscriptionView {
    pub pattern: PatternView,
    pub handler_id: Seq<char>,
}

impl<H> View for Subscription<H> {
    type V = SubscriptionView;

    open spec fn view(&self) -> SubscriptionView {
        SubscriptionView { pattern: self.pattern@, handler_id: self.handler_id@ }
    }
}

/// The images of a sequence of subscriptions, in order.
pub open spec fn subs_views<H>(subs: Seq<Subscription<H>>) -> Seq<SubscriptionView> {
    subs.map_values(|s: Subscription<H>| s@)
}

/// The images of a sequence of handler identities, in order.
pub open spec fn id_views(ids: Seq<String>) -> Seq<Seq<char>> {
    ids.map_values(|s: String| s@)
}

/// The image of an optional target channel.
pub open spec fn opt_channel_view(channel_option: Option<MessageChannel>) -> Option<ChannelView> {
    match channel_option {
        Option::None => Option::None,
        Option::Some(ch) => Option::Some(ch@),
    }
}

/// Every handler identity in registration order: what an emit without a
/// channel delivers to.
pub open spec fn all_ids(subs: Seq<SubscriptionView>) -> Seq<Seq<char>> {
    subs.map_values(|s: SubscriptionView| s.handler_id)
}

/// The identities of the subscriptions matching a topic channel, in
/// registration order: broadcast delivery.
pub open spec fn topic_ids(subs: Seq<SubscriptionView>, c: ChannelView) -> Seq<Seq<char>>
    decreases subs.len(),
{
    if subs.len() == 0 {
        Seq::empty()
    } else {
        let rest = topic_ids(subs.drop_last(), c);
        if pattern_matches(subs.last().pattern, c) {
            rest.push(subs.last().handler_id)
        } else {
            rest
        }
    }
}

/// The identity of the earliest-registered subscription matching a queue
/// channel, if any: competing-consumers delivery.
pub open spec fn queue_ids(subs: Seq<SubscriptionView>, c: ChannelView) -> Seq<Seq<char>>
    decreases subs.len(),
{
    if subs.len() == 0 {
        Seq::empty()
    } else if pattern_matches(subs.first().pattern, c) {
        seq![subs.first().handler_id]
    } else {
        queue_ids(subs.drop_first(), c)
    }
}

/// The handler identities an emit delivers to, in invocation order: all of
/// them when no channel is given; on a topic, every matching one; on a
/// queue, the earliest-registered matching one only.
pub open spec fn delivery_plan(
    subs: Seq<SubscriptionView>,
    channel: Option<ChannelView>,
) -> Seq<Seq<char>> {
    match channel {
        Option::None => all_ids(subs),
        Option::Some(c) => if c.kind == ChannelType::QUEUE {
            queue_ids(subs, c)
        } else {
            topic_ids(subs, c)
        },
    }
}

/// The subscriptions left after removing the earliest one registered under
/// `id`; the same subscriptions when none carries `id`.
pub open spec fn remove_first_with_id(
    subs: Seq<SubscriptionView>,
    id: Seq<char>,
) -> Seq<SubscriptionView>
    decreases subs.len(),
{
    if subs.len() == 0 {
        subs
    } else if subs.first().handler_id == id {
        subs.drop_first()
    } else {
        seq![subs.first()] + remove_first_with_id(subs.drop_first(), id)
    }
}

proof fn lemma_topic_ids_push(subs: Seq<SubscriptionView>, c: ChannelView, s: SubscriptionView)
    ensures
        topic_ids(subs.push(s), c) == if pattern_matches(s.pattern, c) {
            topic_ids(subs, c).push(s.handler_id)
        } else {
            topic_ids(subs, c)
        },
{
    assert(subs.push(s).drop_last() =~= subs);
    assert(subs.push(s).last() == s);
}

proof fn lemma_queue_ids_step(subs: Seq<SubscriptionView>, c: ChannelView, i: int)
    requires
        0 <= i < subs.len(),
        !pattern_matches(subs[i].pattern, c),
    ensures
        queue_ids(subs.skip(i), c) == queue_ids(subs.skip(i + 1), c),
{
    assert(subs.skip(i).first() == subs[i]);
    assert(subs.skip(i).drop_first() =~= subs.skip(i + 1));
}

proof fn lemma_remove_first_with_id_at(subs: Seq<SubscriptionView>, id: Seq<char>, i: int)
    requires
        0 <= i < subs.len(),
        subs[i].handler_id == id,
        forall|j: int| 0 <= j < i ==> subs[j].handler_id != id,
    ensures
        remove_first_with_id(subs, id) == subs.remove(i),
    decreases i,
{
    if i == 0 {
        assert(subs.first().handler_id == id);
        assert(subs.drop_first() =~= subs.remove(0));
    } else {
        assert(subs.first().handler_id != id);
        assert(forall|j: int| 0 <= j < i - 1 ==> subs.drop_first()[j] == subs[j + 1]);
        lemma_remove_first_with_id_at(subs.drop_first(), id, i - 1);
        assert(seq![subs.first()] + subs.drop_first().remove(i - 1) =~= subs.remove(i));
    }
}

/// Removing an identity that no subscription carries changes nothing.
pub proof fn lemma_remove_first_with_id_absent(subs: Seq<SubscriptionView>, id: Seq<char>)
    requires
        forall|j: int| 0 <= j < subs.len() ==> subs[j].handler_id != id,
    ensures
        remove_first_with_id(subs, id) == subs,
    decreases subs.len(),
{
    if subs.len() > 0 {
        assert(forall|j: int|
            0 <= j < subs.drop_first().len() ==> subs.drop_first()[j] == subs[j + 1]);
        lemma_remove_first_with_id_absent(subs.drop_first(), id);
        assert(seq![subs.first()] + subs.drop_first() =~= subs);
    }
}

/// The ordered collection of live subscriptions.
pub struct EventHandlerRegistryImpl<H> {
    subscriptions: Vec<Subscription<H>>,
}

impl<H> View for EventHandlerRegistryImpl<H> {
    type V = Seq<SubscriptionView>;

    closed spec fn view(&self) -> Seq<SubscriptionView> {
        subs_views(self.subscriptions@)
    }
}

impl<H> EventHandlerRegistryImpl<H> {
    /// A registry with no subscriptions.
    pub fn new() -> (r: Self)
        ensures
            r@ == Seq::<SubscriptionView>::empty(),
    {
        let r = EventHandlerRegistryImpl { subscriptions: Vec::new() };
        proof {
            assert(r@ =~= Seq::<SubscriptionView>::empty());
        }
        r
    }
}

impl<H: EventHandler> EventHandlerRegistryImpl<H> {
    /// Appends a subscription for `event_handler` under `message_channel`,
    /// returning the identity it was registered under.  Fails exactly when
    /// the channel name does not compile, and then changes nothing; no
    /// handler is invoked as a side effect of registration.
    pub fn register(&mut self, message_channel: MessageChannel, event_handler: H) -> (r: Result<
        String,
        RegistryError,
    >)
        ensures
            match r {
                Ok(id) => compilable(message_channel@.name) && final(self)@ == old(self)@.push(
                    SubscriptionView {
                        pattern: PatternView {
                            kind: message_channel@.kind,
                            matcher: spec_matcher_of(message_channel@.name),
                        },
                        handler_id: id@,
                    },
                ),
                Err(e) => !compilable(message_channel@.name) && e
                    == RegistryError::InvalidPattern && final(self)@ == old(self)@,
            },
    {
        let pattern = match ChannelPattern::compile(&message_channel) {
            Ok(p) => p,
            Err(e) => {
                return Err(e);
            },
        };
        let id = event_handler.id();
        let returned = id.clone();
        let ghost before = self@;
        let ghost sub_view = SubscriptionView {
            pattern: pattern@,
            handler_id: id@,
        };
        self.subscriptions.push(Subscription { pattern, handler_id: id, handler: event_handler });
        proof {
            assert(self@ =~= before.push(sub_view));
        }
        Ok(returned)
    }

    /// Appends a subscription that receives every event emitted on a
    /// channel of `channel_type`, bypassing name compilation (which cannot
    /// fail here).  The broker flavours that do not match on names record
    /// their handlers this way.
    pub fn register_match_all(&mut self, channel_type: ChannelType, event_handler: H) -> (r:
        String)
        ensures
            final(self)@ == old(self)@.push(
                SubscriptionView {
                    pattern: PatternView { kind: channel_type, matcher: MatcherView::MatchAll },
                    handler_id: r@,
                },
            ),
    {
        let pattern = ChannelPattern { channel_type, matcher: NameMatcher::MatchAll };
        let id = event_handler.id();
        let returned = id.clone();
        let ghost before = self@;
        let ghost sub_view = SubscriptionView { pattern: pattern@, handler_id: id@ };
        self.subscriptions.push(Subscription { pattern, handler_id: id, handler: event_handler });
        proof {
            assert(self@ =~= before.push(sub_view));
        }
        returned
    }

    /// Removes the earliest subscription registered under `handler_id`;
    /// leaves the registry as it was when none carries that identity, so
    /// unregistering twice is a harmless no-op.
    #[verifier::loop_isolation(false)]
    pub fn unregister(&mut self, handler_id: &str)
        ensures
            final(self)@ == remove_first_with_id(old(self)@, handler_id@),
    {
        let mut i: usize = 0;
        while i < self.subscriptions.len()
            invariant
                0 <= i <= self.subscriptions.len(),
                self == old(self),
                forall|j: int| 0 <= j < i ==> self@[j].handler_id != handler_id@,
            decreases self.subscriptions.len() - i,
        {
            if str_eq(self.subscriptions[i].handler_id.as_str(), handler_id) {
                let ghost before = self@;
                self.subscriptions.remove(i);
                proof {
                    lemma_remove_first_with_id_at(before, handler_id@, i as int);
                    assert(self@ =~= before.remove(i as int));
                }
                return;
            }
            i += 1;
        }
        proof {
            lemma_remove_first_with_id_absent(self@, handler_id@);
        }
    }

    /// Delivers `event` under the configured rules and returns the invoked
    /// handler identities in invocation order: with no channel, every
    /// handler in registration order; on a topic, every matching one; on a
    /// queue, the earliest-registered matching one only.
    pub fn emit(&self, event: &H::Ev, channel_option: Option<MessageChannel>) -> (r: Vec<String>)
        ensures
            id_views(r@) == delivery_plan(self@, opt_channel_view(channel_option)),
    {
        dispatch(&self.subscriptions, event, channel_option)
    }
}

impl<H: Clone> EventHandlerRegistryImpl<H> {
    /// A point-in-time copy of the current subscriptions, in order.  A
    /// caller sharing the registry behind a lock takes the snapshot under
    /// the lock and dispatches over it after releasing, so that handler
    /// execution never holds the lock.
    #[verifier::loop_isolation(false)]
    pub fn snapshot(&self) -> (r: Vec<Subscription<H>>)
        ensures
            subs_views(r@) == self@,
    {
        let mut copy: Vec<Subscription<H>> = Vec::new();
        let mut i: usize = 0;
        while i < self.subscriptions.len()
            invariant
                0 <= i <= self.subscriptions.len(),
                subs_views(copy@) =~= self@.take(i as int),
            decreases self.subscriptions.len() - i,
        {
            let sub = &self.subscriptions[i];
            copy.push(
                Subscription {
                    pattern: sub.pattern.clone_pattern(),
                    handler_id: sub.handler_id.clone(),
                    handler: sub.handler.clone(),
                },
            );
            proof {
                assert(subs_views(copy@) =~= self@.take(i + 1 as int));
            }
            i += 1;
        }
        proof {
            assert(self@.take(self.subscriptions.len() as int) =~= self@);
        }
        copy
    }
}

/// Delivers `event` over a fixed, already-copied sequence of subscriptions
/// — typically a `snapshot` — and returns the invoked handler identities in
/// invocation order.  The dispatcher holds no state of its own.
#[verifier::loop_isolation(false)]
pub fn dispatch<H: EventHandler>(
    subscriptions: &Vec<Subscription<H>>,
    event: &H::Ev,
    channel_option: Option<MessageChannel>,
) -> (r: Vec<String>)
    ensures
        id_views(r@) == delivery_plan(subs_views(subscriptions@), opt_channel_view(channel_option)),
{
    let ghost subs_v = subs_views(subscriptions@);
    let mut invoked: Vec<String> = Vec::new();
    match channel_option {
        None => {
            let mut i: usize = 0;
            while i < subscriptions.len()
                invariant
                    0 <= i <= subscriptions.len(),
                    id_views(invoked@) =~= all_ids(subs_v.take(i as int)),
                decreases subscriptions.len() - i,
            {
                let sub = &subscriptions[i];
                sub.handler.handle(event);
                let cloned = sub.handler_id.clone();
                let ghost prev = invoked@;
                invoked.push(cloned);
                proof {
                    assert(subs_v[i as int] == subscriptions@[i as int]@);
                    assert(id_views(invoked@) =~= id_views(prev).push(subs_v[i as int].handler_id));
                    assert(subs_v.take(i + 1 as int) =~= subs_v.take(i as int).push(
                        subs_v[i as int],
                    ));
                    assert(all_ids(subs_v.take(i as int).push(subs_v[i as int])) =~= all_ids(
                        subs_v.take(i as int),
                    ).push(subs_v[i as int].handler_id));
                    assert(id_views(invoked@) =~= all_ids(subs_v.take(i + 1 as int)));
                }
                i += 1;
            }
            proof {
                assert(subs_v.take(subscriptions.len() as int) =~= subs_v);
            }
        },
        Some(channel) => {
            if channel.channel_type == ChannelType::QUEUE {
                proof {
                    assert(subs_v.skip(0) =~= subs_v);
                }
                let mut i: usize = 0;
                let mut delivered = false;
                while i < subscriptions.len() && !delivered
                    invariant
                        0 <= i <= subscriptions.len(),
                        !delivered ==> invoked@.len() == 0 && queue_ids(subs_v, channel@)
                            == queue_ids(subs_v.skip(i as int), channel@),
                        delivered ==> id_views(invoked@) == queue_ids(subs_v, channel@),
                    decreases subscriptions.len() - i + (if delivered { 0int } else { 1int }),
                {
                    let sub = &subscriptions[i];
                    if sub.pattern.matches(&channel) {
                        sub.handler.handle(event);
                        invoked.push(sub.handler_id.clone());
                        delivered = true;
                        proof {
                            assert(subs_v.skip(i as int).first() == subs_v[i as int]);
                            assert(id_views(invoked@) =~= queue_ids(
                                subs_v.skip(i as int),
                                channel@,
                            ));
                        }
                    } else {
                        proof {
                            lemma_queue_ids_step(subs_v, channel@, i as int);
                        }
                        i += 1;
                    }
                }
                proof {
                    if !delivered {
                        assert(subs_v.skip(subscriptions.len() as int) =~= Seq::<
                            SubscriptionView,
                        >::empty());
                        assert(id_views(invoked@) =~= queue_ids(subs_v, channel@));
                    }
                }
            } else {
                let mut i: usize = 0;
                while i < subscriptions.len()
                    invariant
                        0 <= i <= subscriptions.len(),
                        id_views(invoked@) =~= topic_ids(subs_v.take(i as int), channel@),
                    decreases subscriptions.len() - i,
                {
                    let sub = &subscriptions[i];
                    if sub.pattern.matches(&channel) {
                        sub.handler.handle(event);
                        invoked.push(sub.handler_id.clone());
                    }
                    proof {
                        assert(subs_v.take(i + 1 as int).drop_last() =~= subs_v.take(i as int));
                        lemma_topic_ids_push(subs_v.take(i as int), channel@, subs_v[i as int]);
                        assert(subs_v.take(i as int).push(subs_v[i as int]) =~= subs_v.take(
                            i + 1 as int,
                        ));
                        assert(id_views(invoked@) =~= topic_ids(
                            subs_v.take(i + 1 as int),
                            channel@,
                        ));
                    }
                    i += 1;
                }
                proof {
                    assert(subs_v.take(subscriptions.len() as int) =~= subs_v);
                }
            }
        },
    }
    invoked
}

} // verus!

//! The state of one client session and its two routing directions.

use crate::channel::{
    another_sender, bounded_channel, capacity_of, queue_capacity, send_blocking, OutboundMessage,
};
use crate::locality::{visibility_for, visibility_of, Locality};
use crate::registry::{
    distinct_topics, lemma_distinct_occurs_once, lemma_occurrences_subscribed,
    lemma_recorded_once, occurrences, recorded, subscribed, Entries, SubscriptionRegistry,
};
use crate::translate::{
    key_to_topic, scope_view, spec_key_to_topic, spec_topic_to_key, topic_to_key,
    TranslationError,
};
use async_channel::{Receiver, Sender};
use vstd::prelude::*;

verus! {

/// How many messages the outbound queue of a session holds at most.
pub const OUTBOUND_CAPACITY: usize = 1;

/// What a subscription request comes to.
#[derive(Clone, Debug, PartialEq, Eq)]
pub enum SubscriptionPlan {
    /// The topic is subscribed already: nothing is to be done.
    AlreadySubscribed,
    /// A subscription is to be declared on the overlay network under `key`,
    /// restricted to `visibility`, and then recorded.
    Declare { key: String, visibility: Locality },
}

/// The mathematical content of a `SubscriptionPlan`.
pub enum SubscriptionPlanView {
    AlreadySubscribed,
    Declare { key: Seq<char>, visibility: Locality },
}

impl View for SubscriptionPlan {
    type V = SubscriptionPlanView;

    open spec fn view(&self) -> SubscriptionPlanView {
        match *self {
            SubscriptionPlan::AlreadySubscribed => SubscriptionPlanView::AlreadySubscribed,
            SubscriptionPlan::Declare { key, visibility } => SubscriptionPlanView::Declare {
                key: key@,
                visibility,
            },
        }
    }
}

/// Where and how widely an MQTT publication goes out on the overlay network.
#[derive(Clone, Debug, PartialEq, Eq)]
pub struct Publication {
    /// The key to publish under.
    pub key: String,
    /// Who may observe the publication.
    pub destination: Locality,
}

/// The mathematical content of a `Publication`.
pub struct PublicationView {
    pub key: Seq<char>,
    pub destination: Locality,
}

impl View for Publication {
    type V = PublicationView;

    open spec fn view(&self) -> PublicationView {
        PublicationView { key: self.key@, destination: self.destination }
    }
}

/// Why an overlay event did not reach the outbound queue.
#[derive(Clone, Copy, Debug, PartialEq, Eq, Structural)]
pub enum RouteError {
    /// The event's key does not translate to a topic.
    Translation(TranslationError),
    /// The receiving side of the outbound queue is gone.
    ChannelClosed,
}

/// Why a request of the MQTT client was not carried out on the overlay
/// network.
#[derive(Clone, Debug, PartialEq, Eq)]
pub enum BridgeError<E> {
    /// The topic does not translate to a key; the overlay network was not
    /// asked.
    Translation(TranslationError),
    /// The overlay network refused, with this error.
    Overlay(E),
}

/// The plan for a subscription request, given the entries of the registry,
/// the session's scope and the routing policy's verdict on the topic.
pub open spec fn planned_subscription<H>(
    entries: Entries<H>,
    topic: Seq<char>,
    scope: Option<Seq<char>>,
    allowed: bool,
) -> Result<SubscriptionPlanView, TranslationError> {
    if subscribed(entries, topic) {
        Ok(SubscriptionPlanView::AlreadySubscribed)
    } else {
        match spec_topic_to_key(topic, scope) {
            Ok(key) => Ok(SubscriptionPlanView::Declare { key, visibility: visibility_of(allowed) }),
            Err(e) => Err(e),
        }
    }
}

/// The publication for an MQTT publish, given the session's scope and the
/// routing policy's verdict on the topic.
pub open spec fn planned_publication(
    topic: Seq<char>,
    scope: Option<Seq<char>>,
    allowed: bool,
) -> Result<PublicationView, TranslationError> {
    match spec_topic_to_key(topic, scope) {
        Ok(key) => Ok(PublicationView { key, destination: visibility_of(allowed) }),
        Err(e) => Err(e),
    }
}

/// The message an overlay event becomes, given the session's scope.
pub open spec fn translated_message(
    key: Seq<char>,
    payload: Seq<u8>,
    scope: Option<Seq<char>>,
) -> Result<(Seq<char>, Seq<u8>), TranslationError> {
    match spec_key_to_topic(key, scope) {
        Ok(topic) => Ok((topic, payload)),
        Err(e) => Err(e),
    }
}

/// What routing an overlay event comes to, given the translation of its key
/// and whether the outbound queue took the message.
pub open spec fn routed(
    translated: Result<Seq<char>, TranslationError>,
    queued: bool,
) -> Result<(), RouteError> {
    match translated {
        Err(e) => Err(RouteError::Translation(e)),
        Ok(_) => if queued {
            Ok(())
        } else {
            Err(RouteError::ChannelClosed)
        },
    }
}

/// Whether `declare`, asked for `key`, `visibility` and a router under
/// `scope`, may have given `answer`.
pub open spec fn declared_with<H, E, F: FnOnce(String, Locality, SampleRouter) -> Result<H, E>>(
    declare: F,
    key: Seq<char>,
    visibility: Locality,
    scope: Option<Seq<char>>,
    answer: Result<H, E>,
) -> bool {
    exists|k: String, router: SampleRouter|
        {
            &&& k@ == key
            &&& router.scope() == scope
            &&& #[trigger] declare.ensures((k, visibility, router), answer)
        }
}

/// Whether `after` is `before` with one more entry for `topic`, whose handle
/// `declare` may have given when asked for `key`, `visibility` and a router
/// under `scope`.
pub open spec fn recorded_declaration<
    H,
    E,
    F: FnOnce(String, Locality, SampleRouter) -> Result<H, E>,
>(
    declare: F,
    key: Seq<char>,
    visibility: Locality,
    scope: Option<Seq<char>>,
    topic: Seq<char>,
    before: Entries<H>,
    after: Entries<H>,
) -> bool {
    exists|handle: H|
        {
            &&& #[trigger] declared_with(declare, key, visibility, scope, Ok::<H, E>(handle))
            &&& after == before.push((topic, visibility, handle))
        }
}

/// Whether `publish`, asked for a publication of content `planned`, may have
/// given `answer`.
pub open spec fn published_with<E, F: FnOnce(Publication) -> Result<(), E>>(
    publish: F,
    planned: PublicationView,
    answer: Result<(), E>,
) -> bool {
    exists|publication: Publication|
        publication@ == planned && #[trigger] publish.ensures((publication,), answer)
}

/// The state of one connected MQTT client.
#[derive(Debug)]
pub struct MqttSessionState<H> {
    client_id: String,
    scope: Option<String>,
    subs: SubscriptionRegistry<H>,
    tx: Sender<OutboundMessage>,
}

impl<H> MqttSessionState<H> {
    /// The client's identifier.
    pub closed spec fn client_id_view(&self) -> Seq<char> {
        self.client_id@
    }

    /// The scope that keys of this session are prefixed with, if any.
    pub closed spec fn scope(&self) -> Option<Seq<char>> {
        scope_view(self.scope)
    }

    /// The subscriptions of this session, oldest first.
    pub closed spec fn subscriptions(&self) -> Entries<H> {
        self.subs.entries()
    }

    /// The sending half of the session's outbound queue.
    pub closed spec fn outbound_view(&self) -> Sender<OutboundMessage> {
        self.tx
    }

    #[verifier::type_invariant]
    spec fn single_slot(&self) -> bool {
        queue_capacity(self.tx) == Some(OUTBOUND_CAPACITY as nat)
    }

    /// Creates the state of a session together with the receiving half of
    /// its outbound queue, which the delivery task is to drain. The queue
    /// holds one message at most; the session has no subscriptions yet.
    pub fn new(client_id: String, scope: Option<String>) -> (r: (
        Self,
        Receiver<OutboundMessage>,
    ))
        ensures
            r.0.client_id_view() == client_id@,
            r.0.scope() == scope_view(scope),
            r.0.subscriptions().len() == 0,
            queue_capacity(r.0.outbound_view()) == Some(1nat),
    {
        let (tx, rx) = bounded_channel(OUTBOUND_CAPACITY);
        let state = MqttSessionState { client_id, scope, subs: SubscriptionRegistry::new(), tx };
        (state, rx)
    }

    /// The client's identifier.
    pub fn client_id(&self) -> (id: &String)
        ensures
            id@ == self.client_id_view(),
    {
        &self.client_id
    }

    /// The scope of this session, if any.
    pub fn scope_prefix(&self) -> (scope: &Option<String>)
        ensures
            scope_view(*scope) == self.scope(),
    {
        &self.scope
    }

    /// The registry of this session's subscriptions.
    pub fn registry(&self) -> (subs: &SubscriptionRegistry<H>)
        ensures
            subs.entries() == self.subscriptions(),
    {
        &self.subs
    }

    /// The sending half of the outbound queue, to be cloned into each
    /// subscription callback. Its queue holds one message at most.
    pub fn outbound(&self) -> (tx: &Sender<OutboundMessage>)
        ensures
            *tx == self.outbound_view(),
            queue_capacity(*tx) == Some(1nat),
    {
        proof {
            use_type_invariant(self);
        }
        &self.tx
    }

    /// What the callback of a subscription of this session works with: the
    /// session's scope and a sender of its own into the session's queue.
    pub fn router(&self) -> (router: SampleRouter)
        ensures
            router.scope() == self.scope(),
            queue_capacity(router.outbound_view()) == queue_capacity(self.outbound_view()),
    {
        proof {
            use_type_invariant(self);
        }
        let scope = match &self.scope {
            Some(s) => Some(s.clone()),
            None => None,
        };
        SampleRouter { scope, tx: another_sender(&self.tx) }
    }

    /// Asks the session's outbound queue how many undelivered messages it
    /// holds at most. The answer is the capacity the queue was created
    /// with, which is always one.
    pub fn outbound_capacity(&self) -> (cap: Option<usize>)
        ensures
            queue_capacity(self.outbound_view()) == match cap {
                Some(n) => Some(n as nat),
                None => None,
            },
            cap == Some(OUTBOUND_CAPACITY),
    {
        proof {
            use_type_invariant(self);
        }
        capacity_of(&self.tx)
    }

    /// Decides what a subscription request for `topic` comes to, where
    /// `allowed` is the routing policy's verdict on the topic.
    ///
    /// A topic that is subscribed already needs nothing more, whatever the
    /// policy says now. Otherwise the topic is translated under the
    /// session's scope: a failure is returned as it is, and a key comes with
    /// the visibility the policy grants, `Any` when allowed and
    /// `SessionLocal` when not.
    pub fn plan_subscription(&self, topic: &str, allowed: bool) -> (r: Result<
        SubscriptionPlan,
        TranslationError,
    >)
        ensures
            match r {
                Ok(plan) => planned_subscription(
                    self.subscriptions(),
                    topic@,
                    self.scope(),
                    allowed,
                ) == Ok::<SubscriptionPlanView, TranslationError>(plan@),
                Err(e) => planned_subscription(self.subscriptions(), topic@, self.scope(), allowed)
                    == Err::<SubscriptionPlanView, TranslationError>(e),
            },
    {
        let visibility = visibility_for(allowed);
        if self.subs.contains(topic) {
            return Ok(SubscriptionPlan::AlreadySubscribed);
        }
        match topic_to_key(topic, &self.scope) {
            Ok(key) => Ok(SubscriptionPlan::Declare { key, visibility }),
            Err(e) => Err(e),
        }
    }

    /// Records the subscription that was declared for `topic`.
    ///
    /// If the topic is subscribed already the session stays as it is and the
    /// handle is given back; otherwise the subscription becomes the newest
    /// entry and `None` is returned. Either way the topic is then bound by
    /// exactly one entry.
    pub fn complete_subscription(&mut self, topic: &str, visibility: Locality, handle: H) -> (refused:
        Option<H>)
        ensures
            final(self).subscriptions() == recorded(
                old(self).subscriptions(),
                topic@,
                visibility,
                handle,
            ),
            refused == if subscribed(old(self).subscriptions(), topic@) {
                Some(handle)
            } else {
                None
            },
            distinct_topics(final(self).subscriptions()),
            occurrences(final(self).subscriptions(), topic@) == 1,
            final(self).client_id_view() == old(self).client_id_view(),
            final(self).scope() == old(self).scope(),
            final(self).outbound_view() == old(self).outbound_view(),
    {
        proof {
            use_type_invariant(&*self);
        }
        let mut subs: SubscriptionRegistry<H> = SubscriptionRegistry::new();
        core::mem::swap(&mut subs, &mut self.subs);
        let refused = subs.insert(topic, visibility, handle);
        self.subs = subs;
        refused
    }

    /// Subscribes the client to `topic`, where `allowed` is the routing
    /// policy's verdict on the topic and `declare` registers a subscription
    /// on the overlay network for a key, a visibility and the router its
    /// callback is to feed.
    ///
    /// A topic that is subscribed already is a success without a new
    /// registration. A topic that does not translate is refused and nothing
    /// is registered. Otherwise `declare` is asked once, for the key and the
    /// visibility of the plan and a router of this session: the handle it
    /// returns becomes the newest entry of the registry, and its error is
    /// returned with the registry as it was.
    pub fn map_mqtt_subscription<E, F>(&mut self, topic: &str, allowed: bool, declare: F) -> (r:
        Result<(), BridgeError<E>>) where F: FnOnce(String, Locality, SampleRouter) -> Result<H, E>
        requires
            forall|key: String, visibility: Locality, router: SampleRouter|
                declare.requires((key, visibility, router)),
        ensures
            final(self).client_id_view() == old(self).client_id_view(),
            final(self).scope() == old(self).scope(),
            final(self).outbound_view() == old(self).outbound_view(),
            distinct_topics(final(self).subscriptions()),
            r is Ok ==> occurrences(final(self).subscriptions(), topic@) == 1,
            planned_subscription(old(self).subscriptions(), topic@, old(self).scope(), allowed)
                == Ok::<SubscriptionPlanView, TranslationError>(
                SubscriptionPlanView::AlreadySubscribed,
            ) ==> {
                &&& r is Ok
                &&& final(self).subscriptions() == old(self).subscriptions()
            },
            planned_subscription(
                old(self).subscriptions(),
                topic@,
                old(self).scope(),
                allowed,
            ) matches Err(e) ==> {
                &&& r == Err::<(), BridgeError<E>>(BridgeError::Translation(e))
                &&& final(self).subscriptions() == old(self).subscriptions()
            },
            planned_subscription(
                old(self).subscriptions(),
                topic@,
                old(self).scope(),
                allowed,
            ) matches Ok(SubscriptionPlanView::Declare { key, visibility }) ==> match r {
                Ok(_) => recorded_declaration(
                    declare,
                    key,
                    visibility,
                    old(self).scope(),
                    topic@,
                    old(self).subscriptions(),
                    final(self).subscriptions(),
                ),
                Err(BridgeError::Overlay(e)) => {
                    &&& declared_with(declare, key, visibility, old(self).scope(), Err::<H, E>(e))
                    &&& final(self).subscriptions() == old(self).subscriptions()
                },
                Err(BridgeError::Translation(_)) => false,
            },
    {
        // Besides the count, `len` tells that no two entries share a topic.
        let _entries: usize = self.subs.len();
        match self.plan_subscription(topic, allowed) {
            Ok(SubscriptionPlan::AlreadySubscribed) => {
                proof {
                    lemma_distinct_occurs_once(self.subscriptions(), topic@);
                    lemma_occurrences_subscribed(self.subscriptions(), topic@);
                }
                Ok(())
            },
            Ok(SubscriptionPlan::Declare { key, visibility }) => {
                let router = self.router();
                let ghost asked = (key, visibility, router);
                match declare(key, visibility, router) {
                    Ok(handle) => {
                        let refused = self.complete_subscription(topic, visibility, handle);
                        assert(refused is None);
                        assert(recorded_declaration(
                            declare,
                            asked.0@,
                            visibility,
                            old(self).scope(),
                            topic@,
                            old(self).subscriptions(),
                            self.subscriptions(),
                        )) by {
                            assert(declare.ensures(asked, Ok::<H, E>(handle)));
                            assert(declared_with(
                                declare,
                                asked.0@,
                                visibility,
                                old(self).scope(),
                                Ok::<H, E>(handle),
                            ));
                        }
                        Ok(())
                    },
                    Err(e) => {
                        assert(declared_with(
                            declare,
                            asked.0@,
                            visibility,
                            old(self).scope(),
                            Err::<H, E>(e),
                        )) by {
                            assert(declare.ensures(asked, Err::<H, E>(e)));
                        }
                        Err(BridgeError::Overlay(e))
                    },
                }
            },
            Err(e) => Err(BridgeError::Translation(e)),
        }
    }
}

/// Decides where an MQTT publish on `topic` goes, where `allowed` is the
/// routing policy's verdict on the topic.
///
/// The key is the topic under the scope; the destination is `Any` when the
/// topic is allowed and `SessionLocal` when it is not. A topic that does not
/// translate is refused with the translation's error.
pub fn plan_publication(topic: &str, scope: &Option<String>, allowed: bool) -> (r: Result<
    Publication,
    TranslationError,
>)
    ensures
        match r {
            Ok(p) => planned_publication(topic@, scope_view(*scope), allowed) == Ok::<
                PublicationView,
                TranslationError,
            >(p@),
            Err(e) => planned_publication(topic@, scope_view(*scope), allowed) == Err::<
                PublicationView,
                TranslationError,
            >(e),
        },
{
    let destination = visibility_for(allowed);
    match topic_to_key(topic, scope) {
        Ok(key) => Ok(Publication { key, destination }),
        Err(e) => Err(e),
    }
}

/// Routes one MQTT publish to the overlay network, where `allowed` is the
/// routing policy's verdict on the topic and `publish` puts a publication on
/// the overlay network.
///
/// A topic that does not translate under `scope` is refused and `publish` is
/// not asked. Otherwise `publish` is asked once, for the key of the topic
/// under the scope and the destination the policy grants, and what it
/// answers is returned as it is.
pub fn route_mqtt_to_zenoh<E, F>(
    topic: &str,
    scope: &Option<String>,
    allowed: bool,
    publish: F,
) -> (r: Result<(), BridgeError<E>>) where F: FnOnce(Publication) -> Result<(), E>
    requires
        forall|publication: Publication| publish.requires((publication,)),
    ensures
        match planned_publication(topic@, scope_view(*scope), allowed) {
            Err(e) => r == Err::<(), BridgeError<E>>(BridgeError::Translation(e)),
            Ok(planned) => match r {
                Ok(done) => published_with(publish, planned, Ok::<(), E>(done)),
                Err(BridgeError::Overlay(e)) => published_with(publish, planned, Err::<(), E>(e)),
                Err(BridgeError::Translation(_)) => false,
            },
        },
{
    match plan_publication(topic, scope, allowed) {
        Ok(publication) => {
            let ghost asked = (publication,);
            let answer = publish(publication);
            assert(published_with(publish, asked.0@, answer)) by {
                assert(publish.ensures((asked.0,), answer));
            }
            match answer {
                Ok(done) => Ok(done),
                Err(e) => Err(BridgeError::Overlay(e)),
            }
        },
        Err(e) => Err(BridgeError::Translation(e)),
    }
}

/// The part of a session that a subscription callback owns: the scope to
/// translate keys under and a sender into the session's outbound queue.
#[derive(Debug)]
pub struct SampleRouter {
    scope: Option<String>,
    tx: Sender<OutboundMessage>,
}

impl SampleRouter {
    /// The scope that keys are translated under, if any.
    pub closed spec fn scope(&self) -> Option<Seq<char>> {
        scope_view(self.scope)
    }

    #[verifier::type_invariant]
    spec fn single_slot(&self) -> bool {
        queue_capacity(self.tx) == Some(OUTBOUND_CAPACITY as nat)
    }

    /// The sender through which this router feeds the outbound queue.
    pub closed spec fn outbound_view(&self) -> Sender<OutboundMessage> {
        self.tx
    }

    /// Asks the queue behind this router how many undelivered messages it
    /// holds at most. The answer is the capacity the queue was created
    /// with, which is always one.
    pub fn outbound_capacity(&self) -> (cap: Option<usize>)
        ensures
            queue_capacity(self.outbound_view()) == match cap {
                Some(n) => Some(n as nat),
                None => None,
            },
            cap == Some(OUTBOUND_CAPACITY),
    {
        proof {
            use_type_invariant(self);
        }
        capacity_of(&self.tx)
    }

    /// Routes one overlay event to the MQTT client, as
    /// `route_zenoh_to_mqtt` does under this router's scope and queue.
    pub fn route(&self, key: &str, payload: Vec<u8>) -> (r: Result<(), RouteError>)
        ensures
            r == routed(spec_key_to_topic(key@, self.scope()), true) || r == routed(
                spec_key_to_topic(key@, self.scope()),
                false,
            ),
    {
        route_zenoh_to_mqtt(key, payload, &self.scope, &self.tx)
    }
}

/// Turns an overlay event into the message for the MQTT client: the topic
/// that the event's key stands for under `scope`, with the payload as it is.
pub fn outbound_message(key: &str, payload: Vec<u8>, scope: &Option<String>) -> (r: Result<
    OutboundMessage,
    TranslationError,
>)
    ensures
        match r {
            Ok(m) => translated_message(key@, payload@, scope_view(*scope)) == Ok::<
                (Seq<char>, Seq<u8>),
                TranslationError,
            >((m.topic@, m.payload@)),
            Err(e) => translated_message(key@, payload@, scope_view(*scope)) == Err::<
                (Seq<char>, Seq<u8>),
                TranslationError,
            >(e),
        },
{
    match key_to_topic(key, scope) {
        Ok(topic) => Ok(OutboundMessage { topic, payload }),
        Err(e) => Err(e),
    }
}

/// Names the outcome of handing a message to the outbound queue: a message
/// that came back was refused because the receiving side is gone.
pub fn route_outcome(sent: Result<(), OutboundMessage>) -> (r: Result<(), RouteError>)
    ensures
        r == if sent is Ok {
            Ok::<(), RouteError>(())
        } else {
            Err::<(), RouteError>(RouteError::ChannelClosed)
        },
{
    match sent {
        Ok(()) => Ok(()),
        Err(_) => Err(RouteError::ChannelClosed),
    }
}

/// Routes one overlay event to the MQTT client of a session: translates the
/// event's key to a topic and hands topic and payload to the outbound queue,
/// waiting while the queue is full.
///
/// An event whose key does not translate is refused with the translation's
/// error and nothing is queued. Otherwise the result tells whether the queue
/// took the message, which depends on the receiving side alone.
pub fn route_zenoh_to_mqtt(
    key: &str,
    payload: Vec<u8>,
    scope: &Option<String>,
    tx: &Sender<OutboundMessage>,
) -> (r: Result<(), RouteError>)
    ensures
        r == routed(spec_key_to_topic(key@, scope_view(*scope)), true) || r == routed(
            spec_key_to_topic(key@, scope_view(*scope)),
            false,
        ),
{
    match outbound_message(key, payload, scope) {
        Ok(message) => route_outcome(send_blocking(tx, message)),
        Err(e) => Err(RouteError::Translation(e)),
    }
}

/// Subscribing is idempotent: once a subscription to a topic is recorded, a
/// further request for the topic is answered with success without a new
/// declaration, recording again changes nothing, and the topic stays bound
/// by exactly one entry.
pub proof fn lemma_subscription_idempotent<H>(
    entries: Entries<H>,
    topic: Seq<char>,
    scope: Option<Seq<char>>,
    visibility: Locality,
    handle: H,
    allowed_again: bool,
    visibility_again: Locality,
    handle_again: H,
)
    requires
        distinct_topics(entries),
    ensures
        ({
            let once = recorded(entries, topic, visibility, handle);
            let twice = recorded(once, topic, visibility_again, handle_again);
            &&& planned_subscription(once, topic, scope, allowed_again) == Ok::<
                SubscriptionPlanView,
                TranslationError,
            >(SubscriptionPlanView::AlreadySubscribed)
            &&& twice == once
            &&& occurrences(once, topic) == 1
            &&& occurrences(twice, topic) == 1
        }),
{
    lemma_recorded_once(entries, topic, visibility, handle);
}

/// The routing policy alone decides the visibility, and in both directions
/// alike: whatever is planned for a topic that is not allowed is confined to
/// `SessionLocal`, and whatever is planned for an allowed topic is open to
/// `Any`.
pub proof fn lemma_policy_decides_visibility<H>(
    entries: Entries<H>,
    topic: Seq<char>,
    scope: Option<Seq<char>>,
    allowed: bool,
)
    ensures
        planned_subscription(entries, topic, scope, allowed) matches Ok(
            SubscriptionPlanView::Declare { visibility, .. },
        ) ==> visibility == (if allowed {
            Locality::Any
        } else {
            Locality::SessionLocal
        }),
        planned_publication(topic, scope, allowed) matches Ok(p) ==> p.destination == (if allowed {
            Locality::Any
        } else {
            Locality::SessionLocal
        }),
        planned_publication(topic, scope, allowed) is Ok <==> spec_topic_to_key(topic, scope) is Ok,
        !subscribed(entries, topic) ==> (planned_subscription(entries, topic, scope, allowed) is Ok
            <==> spec_topic_to_key(topic, scope) is Ok),
{
}

} // verus!

//! The coordinator: it owns the one topic the node is on, and turns network
//! events and front-end commands into calls on the provider, envelopes for
//! the front end and replies.

use crate::codec::{Decode, Encode};
use crate::command::{fulfil, Command, Request};
use crate::errors::{SendingError, SubscribeError};
use crate::message::{Message, MessageView};
use crate::peer::{peer_text, short_label, ShortPeerId};
use crate::provider::{
    add_explicit_peer, explicit_peers, mesh_size, publish, remove_explicit_peer, subscribe,
    subscribed_topics, unsubscribe, Provider,
};
use crate::wire::{decoded_message, message_of, parts, wire_encoding};
use tokio::sync::mpsc;
use vstd::prelude::*;
use vstd::string::*;

verus! {

#[verifier::external_type_specification]
#[verifier::external_body]
#[verifier::reject_recursive_types(T)]
pub struct ExEnvelopeSender<T>(mpsc::Sender<T>);

/// What the network provider reports to the coordinator.
#[derive(Debug)]
pub enum NetworkEvent {
    /// Peers were discovered on the local network.
    Discovered(Vec<libp2p::PeerId>),
    /// Peers discovered earlier have expired.
    Expired(Vec<libp2p::PeerId>),
    /// A payload arrived on a subscribed topic, forwarded by the given peer.
    Message { propagation_source: libp2p::PeerId, data: Vec<u8> },
    /// The node started listening on an address.
    NewListenAddr,
    /// Anything else the provider reports.
    Other,
}

/// Why an envelope did not reach the front end.
#[derive(Debug, Clone, Copy, PartialEq, Eq)]
pub enum Undelivered {
    /// The queue to the front end was full.
    Full,
    /// The front end no longer listens.
    Closed,
}

/// What the coordinator did with a network event.
#[derive(Debug)]
pub enum EventOutcome {
    /// The discovered peers are registered with the provider.
    Registered,
    /// The expired peers are no longer registered with the provider.
    Forgotten,
    /// The payload could not be decoded and was dropped.
    Undecodable(bincode::error::DecodeError),
    /// The payload decoded to an empty message and was dropped.
    Empty,
    /// The message was handed to the front end.
    Delivered,
    /// The message was decoded, but the front end did not take it.
    Undelivered(Undelivered),
    /// The event called for nothing.
    Ignored,
}

/// What becomes of an inbound payload.
#[derive(Debug)]
pub enum Inbound {
    /// It could not be decoded.
    Undecodable(bincode::error::DecodeError),
    /// It decoded to an empty message.
    Empty,
    /// It is to be handed to the front end under the sender's label.
    Envelope(Message, ShortPeerId),
}

/// The reply to a command, and whether its issuer still waited for it.
#[derive(Debug, Clone, PartialEq, Eq)]
pub struct Reply {
    pub text: String,
    pub delivered: bool,
}

/// `mpsc::Sender::try_send` of tokio: queues the envelope for the front end
/// unless the queue is full or closed. Which of these holds depends on the
/// other end, so nothing is claimed of the result.
#[verifier::external_body]
pub(crate) fn try_deliver(
    sender: &mpsc::Sender<(Message, ShortPeerId)>,
    envelope: (Message, ShortPeerId),
) -> (r: Result<(), Undelivered>) {
    match sender.try_send(envelope) {
        Ok(()) => Ok(()),
        Err(mpsc::error::TrySendError::Full(_)) => Err(Undelivered::Full),
        Err(mpsc::error::TrySendError::Closed(_)) => Err(Undelivered::Closed),
    }
}

/// The base-58 texts of the given peers.
pub open spec fn texts_of(peers: Seq<libp2p::PeerId>) -> Set<Seq<char>> {
    peers.map_values(|peer: libp2p::PeerId| peer_text(peer)).to_set()
}

/// The peers registered after an event, given those registered before it,
/// each by the base-58 text of its identity.
pub open spec fn registry_after(event: NetworkEvent, registry: Set<Seq<char>>) -> Set<Seq<char>> {
    match event {
        NetworkEvent::Discovered(peers) => registry.union(texts_of(peers@)),
        NetworkEvent::Expired(peers) => registry.difference(texts_of(peers@)),
        _ => registry,
    }
}

/// Whether `outcome` is what the coordinator reports for `event`.
pub open spec fn outcome_of(event: NetworkEvent, outcome: EventOutcome) -> bool {
    match event {
        NetworkEvent::Discovered(_) => outcome is Registered,
        NetworkEvent::Expired(_) => outcome is Forgotten,
        NetworkEvent::Message { data, .. } => match decoded_message(data@) {
            None => outcome is Undecodable,
            Some(message) => if message.is_empty() {
                outcome is Empty
            } else {
                outcome is Delivered || outcome is Undelivered
            },
        },
        _ => outcome is Ignored,
    }
}

/// The current topic after a request, given the one before it.
pub open spec fn topic_after(request: Request, topic: Option<Seq<char>>) -> Option<Seq<char>> {
    match request {
        Request::SendMessage(_) => topic,
        Request::Subscribe(name) => Some(name),
        Request::Unsubscribe(_) => None,
    }
}

/// The reply to a send, by its result.
pub open spec fn send_reply_text(result: Result<(), SendingError>) -> Seq<char> {
    match result {
        Ok(_) => "Ok"@,
        Err(SendingError::NoSubscribedTopic) => "You are not subscribed to any topic"@,
        Err(SendingError::CantEncodeMessage) => "Something wrong with the message"@,
        Err(SendingError::Other(_)) => "Something went wrong while sending message"@,
    }
}

/// The reply to a subscription, by its result.
pub open spec fn subscribe_reply_text(result: Result<bool, SubscribeError>) -> Seq<char> {
    match result {
        Ok(true) => "You have subscribed to the topic successfully"@,
        Ok(false) => "You are already subscribed to to this topic"@,
        Err(_) => "Something went wrong"@,
    }
}

/// The reply to an unsubscription, by whether the topic was subscribed.
pub open spec fn unsubscribe_reply_text(was_subscribed: bool) -> Seq<char> {
    if was_subscribed {
        "You have unsubscribed from the topic successfully"@
    } else {
        "You haven't been subscribed to this topic"@
    }
}

/// Words the reply to a send.
pub fn send_reply(result: &Result<(), SendingError>) -> (reply: String)
    ensures
        reply@ == send_reply_text(*result),
{
    match result {
        Ok(_) => String::from_str("Ok"),
        Err(SendingError::NoSubscribedTopic) => String::from_str(
            "You are not subscribed to any topic",
        ),
        Err(SendingError::CantEncodeMessage) => String::from_str(
            "Something wrong with the message",
        ),
        Err(SendingError::Other(_)) => String::from_str(
            "Something went wrong while sending message",
        ),
    }
}

/// Words the reply to a subscription.
pub fn subscribe_reply(result: &Result<bool, SubscribeError>) -> (reply: String)
    ensures
        reply@ == subscribe_reply_text(*result),
{
    match result {
        Ok(true) => String::from_str("You have subscribed to the topic successfully"),
        Ok(false) => String::from_str("You are already subscribed to to this topic"),
        Err(_) => String::from_str("Something went wrong"),
    }
}

/// Words the reply to an unsubscription.
pub fn unsubscribe_reply(was_subscribed: bool) -> (reply: String)
    ensures
        reply@ == unsubscribe_reply_text(was_subscribed),
{
    if was_subscribed {
        String::from_str("You have unsubscribed from the topic successfully")
    } else {
        String::from_str("You haven't been subscribed to this topic")
    }
}

/// Decides what becomes of an inbound payload, given what decoding it gave
/// and the peer that forwarded it: a payload that does not decode is dropped,
/// so is one that decodes to an empty message, and any other message goes
/// into an envelope with the label of the peer.
pub fn classify_inbound(
    decoded: Result<Message, bincode::error::DecodeError>,
    source: &libp2p::PeerId,
) -> (inbound: Inbound)
    ensures
        decoded matches Err(e) ==> inbound == Inbound::Undecodable(e),
        decoded matches Ok(message) ==> message@.is_empty() ==> inbound is Empty,
        decoded matches Ok(message) ==> !message@.is_empty() ==> (inbound matches Inbound::Envelope(
            carried,
            label,
        ) && carried == message && label@ == short_label(peer_text(*source))),
{
    match decoded {
        Err(e) => Inbound::Undecodable(e),
        Ok(message) => {
            if message.is_empty() {
                Inbound::Empty
            } else {
                let label = ShortPeerId::from(source);
                Inbound::Envelope(message, label)
            }
        },
    }
}

/// The coordinator's state: the queue to the front end and the one topic the
/// node is on, if any.
pub struct SwarmManager {
    msg_sender: mpsc::Sender<(Message, ShortPeerId)>,
    current_topic: Option<String>,
}

impl SwarmManager {
    /// The name of the current topic, if there is one.
    pub closed spec fn topic(&self) -> Option<Seq<char>> {
        match self.current_topic {
            Some(name) => Some(name@),
            None => None,
        }
    }

    /// A coordinator that delivers to `msg_sender` and is on no topic yet.
    pub fn build(msg_sender: mpsc::Sender<(Message, ShortPeerId)>) -> (manager: SwarmManager)
        ensures
            manager.queue() == msg_sender,
            manager.topic() is None,
    {
        SwarmManager { msg_sender, current_topic: None }
    }

    /// The queue on which envelopes go to the front end. It is the one the
    /// coordinator was built with, for as long as the coordinator lives.
    pub closed spec fn queue(&self) -> mpsc::Sender<(Message, ShortPeerId)> {
        self.msg_sender
    }

    /// The name of the current topic, if there is one.
    pub fn current_topic(&self) -> (topic: Option<&String>)
        ensures
            topic matches Some(name) ==> self.topic() == Some(name@),
            topic is None ==> self.topic() is None,
    {
        self.current_topic.as_ref()
    }

    /// Subscribes to the named topic at start-up.
    pub fn with_topic(self, provider: &mut Provider, topic_name: String) -> (manager: SwarmManager)
        ensures
            manager.queue() == self.queue(),
            manager.topic() == Some(topic_name@),
            subscriptions_after(
                Request::Subscribe(topic_name@),
                mesh_size(*old(provider)),
                subscribed_topics(*old(provider)),
                subscribed_topics(*final(provider)),
            ),
            explicit_peers(*final(provider)) == explicit_peers(*old(provider)),
            mesh_size(*final(provider)) == mesh_size(*old(provider)),
    {
        let mut manager = self;
        let _ = manager.subscribe(provider, topic_name);
        manager
    }

    /// Handles one network event. Discovered peers are registered with the
    /// provider and expired ones removed from it. A payload is decoded; one
    /// that decodes to a message that is not empty is queued for the front
    /// end under the label of the peer that forwarded it, and dropped if the
    /// queue does not take it. Nothing else reaches the front end, and no
    /// event changes the current topic or the subscriptions.
    pub fn handle_event(&mut self, provider: &mut Provider, event: NetworkEvent) -> (outcome:
        EventOutcome)
        ensures
            final(self).queue() == old(self).queue(),
            final(self).topic() == old(self).topic(),
            subscribed_topics(*final(provider)) == subscribed_topics(*old(provider)),
            explicit_peers(*final(provider)) == registry_after(
                event,
                explicit_peers(*old(provider)),
            ),
            mesh_size(*final(provider)) == mesh_size(*old(provider)),
            !(event is Discovered || event is Expired) ==> *final(provider) == *old(provider),
            outcome_of(event, outcome),
    {
        match event {
            NetworkEvent::Discovered(peers) => {
                let ghost before = explicit_peers(*provider);
                let mut i: usize = 0;
                while i < peers.len()
                    invariant
                        i <= peers.len(),
                        subscribed_topics(*provider) == subscribed_topics(*old(provider)),
                        mesh_size(*provider) == mesh_size(*old(provider)),
                        explicit_peers(*provider) == before.union(texts_of(peers@.take(i as int))),
                    decreases peers.len() - i,
                {
                    add_explicit_peer(provider, &peers[i]);
                    proof {
                        lemma_texts_of_next(peers@, i as int);
                        assert(before.union(texts_of(peers@.take(i as int))).insert(
                            peer_text(peers@[i as int]),
                        ) =~= before.union(texts_of(peers@.take(i + 1))));
                    }
                    i += 1;
                }
                assert(peers@.take(peers.len() as int) =~= peers@);
                EventOutcome::Registered
            },
            NetworkEvent::Expired(peers) => {
                let ghost before = explicit_peers(*provider);
                let mut i: usize = 0;
                while i < peers.len()
                    invariant
                        i <= peers.len(),
                        subscribed_topics(*provider) == subscribed_topics(*old(provider)),
                        mesh_size(*provider) == mesh_size(*old(provider)),
                        explicit_peers(*provider) == before.difference(
                            texts_of(peers@.take(i as int)),
                        ),
                    decreases peers.len() - i,
                {
                    remove_explicit_peer(provider, &peers[i]);
                    proof {
                        lemma_texts_of_next(peers@, i as int);
                        assert(before.difference(texts_of(peers@.take(i as int))).remove(
                            peer_text(peers@[i as int]),
                        ) =~= before.difference(texts_of(peers@.take(i + 1))));
                    }
                    i += 1;
                }
                assert(peers@.take(peers.len() as int) =~= peers@);
                EventOutcome::Forgotten
            },
            NetworkEvent::Message { propagation_source, data } => {
                let decoded = Message::decode(data.as_slice());
                proof {
                    if decoded is Ok {
                        lemma_message_of_parts(decoded->Ok_0@);
                    }
                }
                match classify_inbound(decoded, &propagation_source) {
                    Inbound::Undecodable(e) => EventOutcome::Undecodable(e),
                    Inbound::Empty => EventOutcome::Empty,
                    Inbound::Envelope(message, label) => {
                        match try_deliver(&self.msg_sender, (message, label)) {
                            Ok(()) => EventOutcome::Delivered,
                            Err(why) => EventOutcome::Undelivered(why),
                        }
                    },
                }
            },
            NetworkEvent::NewListenAddr => EventOutcome::Ignored,
            NetworkEvent::Other => EventOutcome::Ignored,
        }
    }

    /// Subscribes the provider to the named topic and makes that topic the
    /// current one, whatever topic was current before. The result tells
    /// whether the subscription is new to the provider: `Ok(true)` where the
    /// topic was not subscribed, `Ok(false)` where it was. A topic subscribed
    /// before stays subscribed.
    pub fn subscribe(&mut self, provider: &mut Provider, topic_name: String) -> (r: Result<
        bool,
        SubscribeError,
    >)
        ensures
            final(self).queue() == old(self).queue(),
            final(self).topic() == Some(topic_name@),
            r == Ok::<bool, SubscribeError>(
                !subscribed_topics(*old(provider)).contains(topic_name@),
            ),
            subscriptions_after(
                Request::Subscribe(topic_name@),
                mesh_size(*old(provider)),
                subscribed_topics(*old(provider)),
                subscribed_topics(*final(provider)),
            ),
            explicit_peers(*final(provider)) == explicit_peers(*old(provider)),
            mesh_size(*final(provider)) == mesh_size(*old(provider)),
    {
        let r = subscribe(provider, topic_name.as_str());
        self.current_topic = Some(topic_name);
        r
    }

    /// Unsubscribes the provider from the named topic and returns whether it
    /// was subscribed. No topic is current afterwards, also where the name
    /// given is not that of the current one.
    pub fn unsubscribe(&mut self, provider: &mut Provider, topic_name: String) -> (was_subscribed:
        bool)
        ensures
            final(self).queue() == old(self).queue(),
            final(self).topic() is None,
            was_subscribed == subscribed_topics(*old(provider)).contains(topic_name@),
            subscriptions_after(
                Request::Unsubscribe(topic_name@),
                mesh_size(*old(provider)),
                subscribed_topics(*old(provider)),
                subscribed_topics(*final(provider)),
            ),
            explicit_peers(*final(provider)) == explicit_peers(*old(provider)),
            mesh_size(*final(provider)) == mesh_size(*old(provider)),
    {
        let was_subscribed = unsubscribe(provider, topic_name.as_str());
        self.current_topic = None;
        was_subscribed
    }

    /// What sending `message` hands to the provider: the name of the current
    /// topic and the message's wire form. Without a current topic there is
    /// nothing to publish on.
    pub fn outgoing(&self, message: &Message) -> (r: Result<(String, Vec<u8>), SendingError>)
        ensures
            self.topic() is None ==> r == Err::<(String, Vec<u8>), SendingError>(
                SendingError::NoSubscribedTopic,
            ),
            self.topic() matches Some(topic) ==> (r matches Ok(pair) && pair.0@ == topic
                && pair.1@ == wire_encoding(message@)),
    {
        let topic = match &self.current_topic {
            Some(topic) => topic.clone(),
            None => return Err(SendingError::NoSubscribedTopic),
        };
        match message.encode_to_vec() {
            Ok(bytes) => Ok((topic, bytes)),
            Err(_) => Err(SendingError::CantEncodeMessage),
        }
    }

    /// Publishes the message on the current topic. Without a current topic
    /// this fails with `NoSubscribedTopic` and the provider is not called.
    /// With one, what `outgoing` gives is handed to the provider, and the
    /// result is the provider's: `Ok`, or its refusal as `Other`. Sending
    /// changes neither the current topic nor the subscriptions.
    pub fn send_message(&mut self, provider: &mut Provider, message: Message) -> (r: Result<
        (),
        SendingError,
    >)
        ensures
            final(self).queue() == old(self).queue(),
            final(self).topic() == old(self).topic(),
            old(self).topic() is None ==> r == Err::<(), SendingError>(
                SendingError::NoSubscribedTopic,
            ) && *final(provider) == *old(provider),
            old(self).topic() is Some ==> (r is Ok || r matches Err(SendingError::Other(_))),
            subscribed_topics(*final(provider)) == subscribed_topics(*old(provider)),
            explicit_peers(*final(provider)) == explicit_peers(*old(provider)),
            mesh_size(*final(provider)) == mesh_size(*old(provider)),
    {
        let (topic, bytes) = match self.outgoing(&message) {
            Ok(pair) => pair,
            Err(e) => return Err(e),
        };
        match publish(provider, topic.as_str(), bytes) {
            Ok(()) => Ok(()),
            Err(e) => Err(SendingError::from(e)),
        }
    }

    /// Carries out one command and answers it. A subscription subscribes the
    /// provider to the topic named and makes it the current one; an
    /// unsubscription unsubscribes the provider from the topic named and
    /// leaves no topic current; a send publishes on the current topic. The
    /// reply is worded after the result and handed to the command's slot;
    /// `delivered` tells whether the issuer still waited for it, and the
    /// command is carried out either way. Without a command nothing happens.
    pub fn handle_command(&mut self, provider: &mut Provider, command: Option<Command>) -> (reply:
        Option<Reply>)
        ensures
            final(self).queue() == old(self).queue(),
            command is None ==> reply is None && final(self).topic() == old(self).topic()
                && *final(provider) == *old(provider),
            command matches Some(given) ==> reply is Some && final(self).topic() == topic_after(
                given.request(),
                old(self).topic(),
            ) && reply_of(
                given.request(),
                old(self).topic(),
                subscribed_topics(*old(provider)),
                reply->0.text@,
            ) && subscriptions_after(
                given.request(),
                mesh_size(*old(provider)),
                subscribed_topics(*old(provider)),
                subscribed_topics(*final(provider)),
            ),
            command matches Some(Command::SendMessage { .. }) && old(self).topic() is None
                ==> *final(provider) == *old(provider),
            explicit_peers(*final(provider)) == explicit_peers(*old(provider)),
            mesh_size(*final(provider)) == mesh_size(*old(provider)),
    {
        match command {
            Some(Command::SendMessage { response_sender, msg }) => {
                let result = self.send_message(provider, msg);
                let text = send_reply(&result);
                Some(answer(response_sender, text))
            },
            Some(Command::Subscribe { response_sender, topic_name }) => {
                let result = self.subscribe(provider, topic_name);
                let text = subscribe_reply(&result);
                Some(answer(response_sender, text))
            },
            Some(Command::Unsubscribe { response_sender, topic_name }) => {
                let was_subscribed = self.unsubscribe(provider, topic_name);
                let text = unsubscribe_reply(was_subscribed);
                Some(answer(response_sender, text))
            },
            None => None,
        }
    }
}

/// Whether `text` is the reply the coordinator gives to `request`, with the
/// given current topic and the given subscriptions of the provider. A send
/// without a current topic is answered with the notice that there is none; a
/// send with one is answered by what the provider did with it, with `Ok` or
/// with the notice that sending went wrong. A subscription is answered by
/// whether the topic was new to the provider, an unsubscription by whether
/// the topic was subscribed.
pub open spec fn reply_of(
    request: Request,
    topic: Option<Seq<char>>,
    subscribed: Set<Seq<char>>,
    text: Seq<char>,
) -> bool {
    match request {
        Request::SendMessage(_) => if topic is None {
            text == send_reply_text(Err(SendingError::NoSubscribedTopic))
        } else {
            ||| text == send_reply_text(Ok(()))
            ||| text == "Something went wrong while sending message"@
        },
        Request::Subscribe(name) => text == subscribe_reply_text(Ok(!subscribed.contains(name))),
        Request::Unsubscribe(name) => text == unsubscribe_reply_text(subscribed.contains(name)),
    }
}

/// Whether `after` can be the provider's subscriptions once `request` is
/// carried out, with `before` as its subscriptions until then and `mesh` as
/// the size of mesh it was configured with. A subscription adds the topic
/// named and no other, and removes none; a provider configured with a mesh
/// of no peers may leave the topic out. An unsubscription removes the topic
/// named and no other; a send leaves all as they are.
pub open spec fn subscriptions_after(
    request: Request,
    mesh: nat,
    before: Set<Seq<char>>,
    after: Set<Seq<char>>,
) -> bool {
    match request {
        Request::SendMessage(_) => after == before,
        Request::Subscribe(name) => if mesh > 0 {
            after == before.insert(name)
        } else {
            before.subset_of(after) && after.subset_of(before.insert(name))
        },
        Request::Unsubscribe(name) => after == before.remove(name),
    }
}

/// The reply as it is reported, given its text and what handing it to the
/// slot gave: it was delivered exactly where the slot did not give it back.
pub fn reply_after(text: String, handed: Result<(), String>) -> (reply: Reply)
    ensures
        reply.text == text,
        reply.delivered == (handed is Ok),
{
    match handed {
        Ok(()) => Reply { text, delivered: true },
        Err(_) => Reply { text, delivered: false },
    }
}

/// Hands the reply to the slot and reports it.
fn answer(slot: tokio::sync::oneshot::Sender<String>, text: String) -> (reply: Reply)
    ensures
        reply.text@ == text@,
{
    let copy = text.clone();
    let handed = fulfil(slot, text);
    reply_after(copy, handed)
}

/// Of two subscriptions in a row the second decides the current topic,
/// whatever the topic was before and whether or not the first topic was
/// unsubscribed in between.
pub proof fn lemma_last_subscription_wins(
    before: Option<Seq<char>>,
    first: Seq<char>,
    second: Seq<char>,
)
    ensures
        topic_after(Request::Subscribe(second), topic_after(Request::Subscribe(first), before))
            == Some(second),
        topic_after(
            Request::Subscribe(second),
            topic_after(
                Request::Unsubscribe(first),
                topic_after(Request::Subscribe(first), before),
            ),
        ) == Some(second),
{
}

/// A topic that was subscribed is known as subscribed: a second subscription
/// to it, with no unsubscription in between, is answered as one that was
/// there already. This holds of a provider whose mesh is not of size 0.
pub proof fn lemma_second_subscription_is_known(
    mesh: nat,
    before: Set<Seq<char>>,
    after: Set<Seq<char>>,
    name: Seq<char>,
    topic: Option<Seq<char>>,
    text: Seq<char>,
)
    requires
        mesh > 0,
        subscriptions_after(Request::Subscribe(name), mesh, before, after),
        reply_of(Request::Subscribe(name), topic, after, text),
    ensures
        text == subscribe_reply_text(Ok(false)),
{
}

/// After an unsubscription no topic is current, also where the topic named
/// is not the one that was current.
pub proof fn lemma_unsubscribe_clears_topic(before: Option<Seq<char>>, named: Seq<char>)
    ensures
        topic_after(Request::Unsubscribe(named), before) is None,
{
}

/// A send leaves the current topic as it is.
pub proof fn lemma_send_keeps_topic(before: Option<Seq<char>>, message: MessageView)
    ensures
        topic_after(Request::SendMessage(message), before) == before,
{
}

/// A send without a current topic is answered with the notice that the node
/// is subscribed to no topic, and with nothing else.
pub proof fn lemma_send_without_topic_is_refused(
    message: MessageView,
    subscribed: Set<Seq<char>>,
    text: Seq<char>,
)
    requires
        reply_of(Request::SendMessage(message), None, subscribed, text),
    ensures
        text == "You are not subscribed to any topic"@,
{
}

/// A peer that expires is not registered afterwards, whenever it was
/// discovered and whatever was registered before.
pub proof fn lemma_expired_peer_is_forgotten(
    registry: Set<Seq<char>>,
    discovered: Vec<libp2p::PeerId>,
    expired: Vec<libp2p::PeerId>,
    peer: libp2p::PeerId,
)
    requires
        expired@.contains(peer),
    ensures
        !registry_after(NetworkEvent::Expired(expired), registry).contains(peer_text(peer)),
        !registry_after(
            NetworkEvent::Expired(expired),
            registry_after(NetworkEvent::Discovered(discovered), registry),
        ).contains(peer_text(peer)),
{
    lemma_texts_of_contains(expired@, peer);
}

/// A peer that is discovered is registered afterwards, and discovery removes
/// no registration; expiry adds none.
pub proof fn lemma_discovered_peer_is_registered(
    registry: Set<Seq<char>>,
    peers: Vec<libp2p::PeerId>,
    peer: libp2p::PeerId,
)
    requires
        peers@.contains(peer),
    ensures
        registry_after(NetworkEvent::Discovered(peers), registry).contains(peer_text(peer)),
        registry.subset_of(registry_after(NetworkEvent::Discovered(peers), registry)),
        registry_after(NetworkEvent::Expired(peers), registry).subset_of(registry),
{
    lemma_texts_of_contains(peers@, peer);
}

/// A payload that decodes to an empty message is reported as empty: it is
/// neither delivered to the front end nor offered to it.
pub proof fn lemma_empty_message_is_not_delivered(
    propagation_source: libp2p::PeerId,
    data: Vec<u8>,
    outcome: EventOutcome,
)
    requires
        decoded_message(data@) matches Some(message) && message.is_empty(),
        outcome_of(NetworkEvent::Message { propagation_source, data }, outcome),
    ensures
        outcome is Empty,
        !(outcome is Delivered),
        !(outcome is Undelivered),
{
}

/// The texts of the first `i + 1` peers are those of the first `i` and that
/// of the next.
proof fn lemma_texts_of_next(peers: Seq<libp2p::PeerId>, i: int)
    requires
        0 <= i < peers.len(),
    ensures
        texts_of(peers.take(i + 1)) == texts_of(peers.take(i)).insert(peer_text(peers[i])),
{
    let text = |peer: libp2p::PeerId| peer_text(peer);
    assert(peers.take(i + 1).map_values(text) =~= peers.take(i).map_values(text).push(
        peer_text(peers[i]),
    ));
    peers.take(i).map_values(text).lemma_push_to_set_commute(peer_text(peers[i]));
}

/// A peer among the given ones has its text among theirs.
proof fn lemma_texts_of_contains(peers: Seq<libp2p::PeerId>, peer: libp2p::PeerId)
    requires
        peers.contains(peer),
    ensures
        texts_of(peers).contains(peer_text(peer)),
{
    let text = |peer: libp2p::PeerId| peer_text(peer);
    let i = choose|i: int| 0 <= i < peers.len() && peers[i] == peer;
    assert(peers.map_values(text)[i] == peer_text(peer));
}

/// A message is that of its parts.
proof fn lemma_message_of_parts(message: MessageView)
    ensures
        message_of(parts(message)) == message,
{
    match message.file {
        Some(file) => {
            assert(message_of(parts(message)).file == Some(file));
        },
        None => {},
    }
}

} // verus!

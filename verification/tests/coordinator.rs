use libp2p::gossipsub::{Behaviour, Config, MessageAuthenticity, PublishError as Theirs};
use libp2p::identity::Keypair;
use libp2p::swarm::{NetworkBehaviour, ToSwarm};
use libp2p::PeerId;
use p2p_chat::codec::{Decode, Encode};
use p2p_chat::command::Command;
use p2p_chat::errors::{PublishError, SendingError, SubscribeError};
use p2p_chat::file::File;
use p2p_chat::message::Message;
use p2p_chat::peer::ShortPeerId;
use p2p_chat::swarm_manager::{
    classify_inbound, reply_after, send_reply, subscribe_reply, unsubscribe_reply, EventOutcome,
    Inbound, NetworkEvent, Reply, SwarmManager, Undelivered,
};
use std::task::{Context, Poll, Waker};
use tokio::sync::mpsc;

fn provider() -> Behaviour {
    let key = Keypair::generate_ed25519();
    Behaviour::new(MessageAuthenticity::Signed(key), Config::default()).unwrap()
}

fn manager(buffer: usize) -> (SwarmManager, mpsc::Receiver<(Message, ShortPeerId)>) {
    let (msg_sender, msg_receiver) = mpsc::channel::<(Message, ShortPeerId)>(buffer);
    (SwarmManager::build(msg_sender), msg_receiver)
}

fn topic_of(sw: &SwarmManager) -> Option<String> {
    sw.current_topic().cloned()
}

#[test]
fn communication_test() {
    let mut provider1 = provider();
    let (sw1, _receiver1) = manager(20);
    let sw1 = sw1.with_topic(&mut provider1, "1test".to_string());

    let mut provider2 = provider();
    let (sw2, mut msg_receiver2) = manager(20);
    let mut sw2 = sw2.with_topic(&mut provider2, "1test".to_string());

    let msg = Message::build(Some("Test".to_string()), None);
    let (topic, published) = sw1.outgoing(&msg).unwrap();
    assert_eq!(topic, "1test");

    let source = PeerId::random();
    let outcome = sw2.handle_event(
        &mut provider2,
        NetworkEvent::Message { propagation_source: source, data: published },
    );
    assert!(matches!(outcome, EventOutcome::Delivered));

    let (received_msg, label) = msg_receiver2.try_recv().unwrap();

    assert_eq!(received_msg, msg);
    assert_eq!(label, ShortPeerId::from(&source));
}

#[test]
fn send_message_without_topic() {
    let mut provider = provider();
    let (mut sw, _receiver) = manager(20);

    let msg = Message::build(Some("Test".to_string()), None);
    let res = sw.send_message(&mut provider, msg);

    assert_eq!(res.unwrap_err().to_string(), SendingError::NoSubscribedTopic.to_string());
}

#[test]
fn send_message_without_connected_peers() {
    let mut provider = provider();
    let (sw, _receiver) = manager(20);
    let mut sw = sw.with_topic(&mut provider, "3test".to_string());

    let msg = Message::build(Some("Test".to_string()), None);
    let res = sw.send_message(&mut provider, msg);

    assert_eq!(
        res.unwrap_err().to_string(),
        SendingError::Other(PublishError::InsufficientPeers).to_string()
    );
}

#[test]
fn subscribe_command() {
    let mut provider = provider();
    let (mut sw, _receiver) = manager(20);

    let (command, _) = Command::new_subscribe("4test".to_string());

    sw.handle_command(&mut provider, Some(command));

    assert_eq!(topic_of(&sw).unwrap(), "4test".to_string());
}

#[test]
fn unsubscribe_command() {
    let mut provider = provider();
    let (sw, _receiver) = manager(20);
    let mut sw = sw.with_topic(&mut provider, "5test".to_string());

    let (command, _) = Command::new_unsubscribe("5test".to_string());

    sw.handle_command(&mut provider, Some(command));

    assert!(sw.current_topic().is_none());
}

#[test]
fn new_coordinator_has_no_topic() {
    let (sw, _receiver) = manager(1);
    assert_eq!(topic_of(&sw), None);
}

#[test]
fn send_without_topic_is_answered_and_leaves_the_provider_alone() {
    let mut provider = provider();
    let (mut sw, _receiver) = manager(20);

    let (command, mut reply) = Command::new_send_message(Message::new("hello".to_string()));
    let answered = sw.handle_command(&mut provider, Some(command));

    assert_eq!(
        answered,
        Some(Reply { text: "You are not subscribed to any topic".to_string(), delivered: true })
    );
    assert_eq!(reply.try_recv().unwrap(), "You are not subscribed to any topic");
    assert_eq!(topic_of(&sw), None);
    assert_eq!(provider.topics().count(), 0);
}

#[test]
fn second_subscription_replaces_the_current_topic() {
    let mut provider = provider();
    let (mut sw, _receiver) = manager(20);

    assert_eq!(sw.subscribe(&mut provider, "T".to_string()), Ok(true));
    assert_eq!(sw.subscribe(&mut provider, "U".to_string()), Ok(true));

    assert_eq!(topic_of(&sw).unwrap(), "U");
    // The provider still holds both subscriptions.
    let mut topics: Vec<String> = provider.topics().map(|t| t.to_string()).collect();
    topics.sort();
    assert_eq!(topics, vec!["T".to_string(), "U".to_string()]);
}

#[test]
fn subscription_to_a_subscribed_topic_is_reported_as_such() {
    let mut provider = provider();
    let (mut sw, _receiver) = manager(20);

    assert_eq!(sw.subscribe(&mut provider, "room".to_string()), Ok(true));
    assert_eq!(sw.subscribe(&mut provider, "room".to_string()), Ok(false));
    assert_eq!(topic_of(&sw).unwrap(), "room");

    let (command, mut reply) = Command::new_subscribe("room".to_string());
    sw.handle_command(&mut provider, Some(command));
    assert_eq!(reply.try_recv().unwrap(), "You are already subscribed to to this topic");

    let (command, mut reply) = Command::new_subscribe("other".to_string());
    sw.handle_command(&mut provider, Some(command));
    assert_eq!(reply.try_recv().unwrap(), "You have subscribed to the topic successfully");
}

#[test]
fn unsubscribe_from_another_topic_clears_the_current_one() {
    let mut provider = provider();
    let (sw, _receiver) = manager(20);
    let mut sw = sw.with_topic(&mut provider, "current".to_string());

    let (command, mut reply) = Command::new_unsubscribe("another".to_string());
    let answered = sw.handle_command(&mut provider, Some(command));

    assert!(sw.current_topic().is_none());
    assert_eq!(reply.try_recv().unwrap(), "You haven't been subscribed to this topic");
    assert_eq!(answered.unwrap().text, "You haven't been subscribed to this topic");
    // The provider is still subscribed to the topic that was current.
    assert_eq!(provider.topics().count(), 1);
}

#[test]
fn unsubscribe_reports_whether_the_topic_was_subscribed() {
    let mut provider = provider();
    let (mut sw, _receiver) = manager(20);

    assert!(!sw.unsubscribe(&mut provider, "room".to_string()));
    assert_eq!(sw.subscribe(&mut provider, "room".to_string()), Ok(true));
    assert!(sw.unsubscribe(&mut provider, "room".to_string()));
    assert!(!sw.unsubscribe(&mut provider, "room".to_string()));
    assert_eq!(provider.topics().count(), 0);

    let mut sw = sw.with_topic(&mut provider, "room".to_string());
    let (command, mut reply) = Command::new_unsubscribe("room".to_string());
    sw.handle_command(&mut provider, Some(command));
    assert_eq!(reply.try_recv().unwrap(), "You have unsubscribed from the topic successfully");
}

#[test]
fn send_without_peers_reports_the_failure_and_keeps_the_topic() {
    let mut provider = provider();
    let (mut sw, _receiver) = manager(20);

    let (command, mut reply) = Command::new_subscribe("room1".to_string());
    sw.handle_command(&mut provider, Some(command));
    assert_eq!(reply.try_recv().unwrap(), "You have subscribed to the topic successfully");

    let (command, mut reply) = Command::new_send_message(Message::new("hello".to_string()));
    let answered = sw.handle_command(&mut provider, Some(command)).unwrap();

    assert_eq!(answered.text, "Something went wrong while sending message");
    assert!(answered.delivered);
    assert_eq!(reply.try_recv().unwrap(), "Something went wrong while sending message");
    assert_eq!(topic_of(&sw).unwrap(), "room1");

    let res = sw.send_message(&mut provider, Message::new("hello".to_string()));
    assert_eq!(res, Err(SendingError::Other(PublishError::InsufficientPeers)));
}

#[test]
fn oversized_message_is_refused_by_the_provider() {
    let mut provider = provider();
    let (sw, _receiver) = manager(20);
    let mut sw = sw.with_topic(&mut provider, "room".to_string());

    let attachment = File { name: "big.bin".to_string(), data: vec![0u8; 100_000] };
    let res = sw.send_message(&mut provider, Message::build(None, Some(attachment)));
    assert_eq!(res, Err(SendingError::Other(PublishError::MessageTooLarge)));
    assert_eq!(topic_of(&sw).unwrap(), "room");
}

#[test]
fn no_command_is_no_reply() {
    let mut provider = provider();
    let (sw, _receiver) = manager(20);
    let mut sw = sw.with_topic(&mut provider, "room".to_string());

    assert_eq!(sw.handle_command(&mut provider, None), None);
    assert_eq!(topic_of(&sw).unwrap(), "room");
}

#[test]
fn reply_to_an_issuer_that_gave_up_is_not_delivered() {
    let mut provider = provider();
    let (mut sw, _receiver) = manager(20);

    let (command, reply) = Command::new_subscribe("room".to_string());
    drop(reply);
    let answered = sw.handle_command(&mut provider, Some(command)).unwrap();

    assert_eq!(answered.text, "You have subscribed to the topic successfully");
    assert!(!answered.delivered);
    assert_eq!(topic_of(&sw).unwrap(), "room");
    // The provider was subscribed all the same.
    assert_eq!(provider.topics().map(|t| t.to_string()).collect::<Vec<_>>(), vec!["room"]);

    let (command, reply) = Command::new_unsubscribe("room".to_string());
    drop(reply);
    let answered = sw.handle_command(&mut provider, Some(command)).unwrap();

    assert_eq!(answered.text, "You have unsubscribed from the topic successfully");
    assert!(!answered.delivered);
    assert!(sw.current_topic().is_none());
    assert_eq!(provider.topics().count(), 0);
}

#[test]
fn unsubscribe_command_removes_the_named_topic_only() {
    let mut provider = provider();
    let (mut sw, _receiver) = manager(20);
    sw.subscribe(&mut provider, "b".to_string()).unwrap();
    sw.subscribe(&mut provider, "a".to_string()).unwrap();

    let (command, mut reply) = Command::new_unsubscribe("b".to_string());
    sw.handle_command(&mut provider, Some(command));

    assert!(sw.current_topic().is_none());
    assert_eq!(reply.try_recv().unwrap(), "You have unsubscribed from the topic successfully");
    assert_eq!(provider.topics().map(|t| t.to_string()).collect::<Vec<_>>(), vec!["a"]);
}

#[test]
fn outgoing_bytes_are_the_wire_form() {
    let mut provider = provider();
    let (sw, _receiver) = manager(20);
    let message = Message::build(
        Some("caption".to_string()),
        Some(File { name: "x.txt".to_string(), data: vec![1, 2] }),
    );

    assert_eq!(sw.outgoing(&message), Err(SendingError::NoSubscribedTopic));

    let sw = sw.with_topic(&mut provider, "room".to_string());
    assert_eq!(
        sw.outgoing(&message).unwrap(),
        ("room".to_string(), message.encode_to_vec().unwrap())
    );
    // The bytes handed to the provider give the message back.
    assert_eq!(Message::decode(&sw.outgoing(&message).unwrap().1).unwrap(), message);
}

#[test]
fn empty_inbound_message_is_dropped() {
    let mut provider = provider();
    let (mut sw, mut receiver) = manager(20);

    let data = Message::build(None, None).encode_to_vec().unwrap();
    let outcome = sw.handle_event(
        &mut provider,
        NetworkEvent::Message { propagation_source: PeerId::random(), data },
    );

    assert!(matches!(outcome, EventOutcome::Empty));
    assert!(receiver.try_recv().is_err());
}

#[test]
fn undecodable_inbound_payload_is_dropped() {
    let mut provider = provider();
    let (mut sw, mut receiver) = manager(20);

    let outcome = sw.handle_event(
        &mut provider,
        NetworkEvent::Message { propagation_source: PeerId::random(), data: vec![7, 7, 7] },
    );

    assert!(matches!(outcome, EventOutcome::Undecodable(_)));
    assert!(receiver.try_recv().is_err());
}

#[test]
fn inbound_message_is_dropped_when_the_queue_is_full_or_closed() {
    let mut provider = provider();
    let (mut sw, mut receiver) = manager(1);
    let source = PeerId::random();
    let data = Message::new("hi".to_string()).encode_to_vec().unwrap();
    let event = || NetworkEvent::Message { propagation_source: source, data: data.clone() };

    assert!(matches!(sw.handle_event(&mut provider, event()), EventOutcome::Delivered));
    assert!(matches!(
        sw.handle_event(&mut provider, event()),
        EventOutcome::Undelivered(Undelivered::Full)
    ));
    assert_eq!(receiver.try_recv().unwrap().0, Message::new("hi".to_string()));
    assert!(receiver.try_recv().is_err());

    drop(receiver);
    assert!(matches!(
        sw.handle_event(&mut provider, event()),
        EventOutcome::Undelivered(Undelivered::Closed)
    ));
}

#[test]
fn discovery_and_expiry_are_reported() {
    let mut provider = provider();
    let (sw, mut receiver) = manager(20);
    let mut sw = sw.with_topic(&mut provider, "room".to_string());
    let p = PeerId::random();
    let q = PeerId::random();

    let outcome = sw.handle_event(&mut provider, NetworkEvent::Discovered(vec![p, q]));
    assert!(matches!(outcome, EventOutcome::Registered));
    let outcome = sw.handle_event(&mut provider, NetworkEvent::Discovered(Vec::new()));
    assert!(matches!(outcome, EventOutcome::Registered));
    let outcome = sw.handle_event(&mut provider, NetworkEvent::Expired(vec![p]));
    assert!(matches!(outcome, EventOutcome::Forgotten));
    let outcome = sw.handle_event(&mut provider, NetworkEvent::Expired(vec![p, q, p]));
    assert!(matches!(outcome, EventOutcome::Forgotten));

    assert_eq!(topic_of(&sw).unwrap(), "room");
    assert_eq!(provider.topics().count(), 1);
    assert!(receiver.try_recv().is_err());
}

/// The peers the provider wants dialled, in the order it asks for them.
fn dialled(provider: &mut Behaviour) -> Vec<PeerId> {
    let mut cx = Context::from_waker(Waker::noop());
    let mut peers = Vec::new();
    while let Poll::Ready(event) = provider.poll(&mut cx) {
        if let ToSwarm::Dial { opts } = event {
            peers.extend(opts.get_peer_id());
        }
    }
    peers
}

#[test]
fn discovered_peers_are_handed_to_the_provider() {
    let mut provider = provider();
    let (mut sw, _receiver) = manager(20);
    let p = PeerId::random();
    let q = PeerId::random();

    assert!(dialled(&mut provider).is_empty());
    sw.handle_event(&mut provider, NetworkEvent::Discovered(vec![p, q]));
    // The provider connects to the peers registered with it.
    assert_eq!(dialled(&mut provider), vec![p, q]);

    sw.handle_event(&mut provider, NetworkEvent::Expired(vec![p, q]));
    sw.handle_event(&mut provider, NetworkEvent::Other);
    assert!(dialled(&mut provider).is_empty());
}

#[test]
fn informational_events_change_nothing() {
    let mut provider = provider();
    let (sw, mut receiver) = manager(20);
    let mut sw = sw.with_topic(&mut provider, "room".to_string());

    assert!(matches!(
        sw.handle_event(&mut provider, NetworkEvent::NewListenAddr),
        EventOutcome::Ignored
    ));
    assert!(matches!(sw.handle_event(&mut provider, NetworkEvent::Other), EventOutcome::Ignored));
    assert_eq!(topic_of(&sw).unwrap(), "room");
    assert!(receiver.try_recv().is_err());
}

#[test]
fn classify_inbound_by_what_decoding_gave() {
    let source = PeerId::random();

    let inbound = classify_inbound(Ok(Message::build(None, None)), &source);
    assert!(matches!(inbound, Inbound::Empty));

    let message = Message::new("hi".to_string());
    match classify_inbound(Ok(message.clone()), &source) {
        Inbound::Envelope(carried, label) => {
            assert_eq!(carried, message);
            assert_eq!(label.to_string(), format!("{}...", &source.to_base58()[..8]));
        }
        other => panic!("unexpected {other:?}"),
    }

    let failure = bincode::serde::decode_from_slice::<u8, _>(&[], bincode::config::standard())
        .unwrap_err();
    assert!(matches!(classify_inbound(Err(failure), &source), Inbound::Undecodable(_)));
}

#[test]
fn short_peer_id_is_the_start_of_the_base58_text() {
    let peer = PeerId::random();
    let text = peer.to_base58();
    let short = ShortPeerId::from(&peer);
    assert_eq!(short.to_string(), format!("{}...", &text[..8]));
    assert_eq!(short.to_string().chars().count(), 11);
    assert_eq!(short, ShortPeerId::shorten(&text));
}

#[test]
fn short_peer_id_of_given_texts() {
    assert_eq!(ShortPeerId::shorten("12D3KooWAbCdEfGh").to_string(), "12D3KooW...");
    assert_eq!(ShortPeerId::shorten("12345678").to_string(), "12345678...");
    assert_eq!(ShortPeerId::shorten("123456789").to_string(), "12345678...");
    assert_eq!(ShortPeerId::shorten("11").to_string(), "11...");
    assert_eq!(ShortPeerId::shorten("").to_string(), "...");
    assert_eq!(ShortPeerId::shorten("ääääääääää").to_string(), "ääääääää...");
}

#[test]
fn reply_is_delivered_unless_the_slot_gave_it_back() {
    assert_eq!(
        reply_after("Ok".to_string(), Ok(())),
        Reply { text: "Ok".to_string(), delivered: true }
    );
    assert_eq!(
        reply_after("Ok".to_string(), Err("Ok".to_string())),
        Reply { text: "Ok".to_string(), delivered: false }
    );
}

#[test]
fn replies_by_result() {
    assert_eq!(send_reply(&Ok(())), "Ok");
    assert_eq!(
        send_reply(&Err(SendingError::NoSubscribedTopic)),
        "You are not subscribed to any topic"
    );
    assert_eq!(
        send_reply(&Err(SendingError::CantEncodeMessage)),
        "Something wrong with the message"
    );
    assert_eq!(
        send_reply(&Err(SendingError::Other(PublishError::Duplicate))),
        "Something went wrong while sending message"
    );
    assert_eq!(subscribe_reply(&Ok(true)), "You have subscribed to the topic successfully");
    assert_eq!(subscribe_reply(&Ok(false)), "You are already subscribed to to this topic");
    assert_eq!(subscribe_reply(&Err(SubscribeError::NotAllowed)), "Something went wrong");
    assert_eq!(unsubscribe_reply(true), "You have unsubscribed from the topic successfully");
    assert_eq!(unsubscribe_reply(false), "You haven't been subscribed to this topic");
}

#[test]
fn error_texts() {
    assert_eq!(
        SendingError::NoSubscribedTopic.to_string(),
        "Swarm is not subscribed to the topic"
    );
    assert_eq!(SendingError::CantEncodeMessage.to_string(), "Message encoding error");
    assert_eq!(
        SendingError::Other(PublishError::InsufficientPeers).to_string(),
        "Other error InsufficientPeers"
    );
    assert_eq!(SendingError::from(PublishError::Duplicate).to_string(), "Other error Duplicate");
    assert_eq!(PublishError::MessageTooLarge.to_string(), "MessageTooLarge");
    assert_eq!(PublishError::AllQueuesFull(0).to_string(), "AllQueuesFull(0)");
    assert_eq!(PublishError::AllQueuesFull(7).to_string(), "AllQueuesFull(7)");
    assert_eq!(PublishError::AllQueuesFull(1203).to_string(), "AllQueuesFull(1203)");
    assert_eq!(
        PublishError::AllQueuesFull(usize::MAX).to_string(),
        format!("AllQueuesFull({})", usize::MAX)
    );
    assert_eq!(
        PublishError::SigningError("bad key".to_string()).to_string(),
        "SigningError(bad key)"
    );
    assert_eq!(
        PublishError::TransformFailed("broken".to_string()).to_string(),
        "TransformFailed(broken)"
    );
    assert_eq!(SubscribeError::NotAllowed.to_string(), "NotAllowed");
    assert_eq!(
        SubscribeError::PublishError("Duplicate".to_string()).to_string(),
        "PublishError(Duplicate)"
    );
}

#[test]
fn error_texts_match_the_providers() {
    assert_eq!(PublishError::Duplicate.to_string(), Theirs::Duplicate.to_string());
    assert_eq!(PublishError::InsufficientPeers.to_string(), Theirs::InsufficientPeers.to_string());
    assert_eq!(PublishError::MessageTooLarge.to_string(), Theirs::MessageTooLarge.to_string());
    assert_eq!(PublishError::AllQueuesFull(12).to_string(), Theirs::AllQueuesFull(12).to_string());
}

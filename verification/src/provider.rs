//! The overlay network provider as the coordinator sees it: a gossipsub
//! behaviour, known by the topics it is subscribed to and by the peers
//! registered with it as explicit participants.

use crate::errors::{PublishError, SubscribeError};
use crate::peer::peer_text;
use libp2p::gossipsub::{IdentTopic, PublishError as Refusal, SubscriptionError};
use vstd::prelude::*;

verus! {

#[verifier::external_type_specification]
#[verifier::external_body]
pub struct ExIdentityTransform(libp2p::gossipsub::IdentityTransform);

#[verifier::external_type_specification]
#[verifier::external_body]
pub struct ExAllowAllSubscriptionFilter(libp2p::gossipsub::AllowAllSubscriptionFilter);

#[verifier::external_type_specification]
#[verifier::external_body]
#[verifier::reject_recursive_types(D)]
#[verifier::reject_recursive_types(F)]
pub struct ExBehaviour<D, F>(libp2p::gossipsub::Behaviour<D, F>);

/// The provider: gossipsub without payload transform or subscription filter.
pub type Provider = libp2p::gossipsub::Behaviour;

/// The names of the topics the provider is subscribed to.
pub uninterp spec fn subscribed_topics(provider: libp2p::gossipsub::Behaviour) -> Set<Seq<char>>;

/// The peers registered with the provider as explicit participants, each by
/// the base-58 text of its identity.
pub uninterp spec fn explicit_peers(provider: libp2p::gossipsub::Behaviour) -> Set<Seq<char>>;

/// The number of peers the provider was configured to keep in the mesh of a
/// topic.
pub uninterp spec fn mesh_size(provider: libp2p::gossipsub::Behaviour) -> nat;

/// Where the node listens for QUIC connections: on every interface.
pub const QUIC_LISTEN_ADDRESS: &'static str = "/ip4/0.0.0.0/udp/0/quic-v1";

/// Where the node listens for TCP connections: on every interface.
pub const TCP_LISTEN_ADDRESS: &'static str = "/ip4/0.0.0.0/tcp/0";

/// `Behaviour::subscribe` of gossipsub, on the topic of the given name. It
/// returns `Ok(true)` where the topic was not subscribed before and
/// `Ok(false)` where it was. It reports an error only where the provider's
/// filter refuses the topic, and this provider's filter refuses none. A new
/// subscription is recorded when the provider joins the topic's mesh, which
/// it does unless it was configured with a mesh of no peers. No other topic's
/// subscription changes, and none at all unless `Ok(true)` is returned.
/// Registered peers and the configuration stay as they are.
#[verifier::external_body]
pub(crate) fn subscribe(provider: &mut Provider, topic: &str) -> (r: Result<bool, SubscribeError>)
    ensures
        r == Ok::<bool, SubscribeError>(!subscribed_topics(*old(provider)).contains(topic@)),
        !(r matches Ok(newly) && newly) ==> subscribed_topics(*final(provider))
            == subscribed_topics(*old(provider)),
        mesh_size(*old(provider)) > 0 ==> subscribed_topics(*final(provider))
            == subscribed_topics(*old(provider)).insert(topic@),
        subscribed_topics(*old(provider)).subset_of(subscribed_topics(*final(provider))),
        subscribed_topics(*final(provider)).subset_of(
            subscribed_topics(*old(provider)).insert(topic@),
        ),
        explicit_peers(*final(provider)) == explicit_peers(*old(provider)),
        mesh_size(*final(provider)) == mesh_size(*old(provider)),
{
    match provider.subscribe(&IdentTopic::new(topic)) {
        Ok(newly) => Ok(newly),
        Err(SubscriptionError::NotAllowed) => Err(SubscribeError::NotAllowed),
        Err(SubscriptionError::PublishError(e)) => Err(
            SubscribeError::PublishError(format!("{e}")),
        ),
    }
}

/// `Behaviour::unsubscribe` of gossipsub, on the topic of the given name. It
/// returns whether the topic was subscribed, and leaves it unsubscribed. No
/// other topic's subscription changes. Registered peers and the
/// configuration stay as they are.
#[verifier::external_body]
pub(crate) fn unsubscribe(provider: &mut Provider, topic: &str) -> (was_subscribed: bool)
    ensures
        was_subscribed == subscribed_topics(*old(provider)).contains(topic@),
        subscribed_topics(*final(provider)) == subscribed_topics(*old(provider)).remove(topic@),
        explicit_peers(*final(provider)) == explicit_peers(*old(provider)),
        mesh_size(*final(provider)) == mesh_size(*old(provider)),
{
    provider.unsubscribe(&IdentTopic::new(topic))
}

/// `Behaviour::publish` of gossipsub, on the topic of the given name. Whether
/// it succeeds depends on the peers connected at the time, so nothing is
/// claimed of the result; a refusal comes back as the variant of the same
/// name. It changes neither the subscriptions nor the registered peers nor
/// the configuration.
#[verifier::external_body]
pub(crate) fn publish(provider: &mut Provider, topic: &str, data: Vec<u8>) -> (r: Result<
    (),
    PublishError,
>)
    ensures
        subscribed_topics(*final(provider)) == subscribed_topics(*old(provider)),
        explicit_peers(*final(provider)) == explicit_peers(*old(provider)),
        mesh_size(*final(provider)) == mesh_size(*old(provider)),
{
    match provider.publish(IdentTopic::new(topic), data) {
        Ok(_) => Ok(()),
        Err(Refusal::Duplicate) => Err(PublishError::Duplicate),
        Err(Refusal::SigningError(e)) => Err(PublishError::SigningError(format!("{e:?}"))),
        Err(Refusal::InsufficientPeers) => Err(PublishError::InsufficientPeers),
        Err(Refusal::MessageTooLarge) => Err(PublishError::MessageTooLarge),
        Err(Refusal::TransformFailed(e)) => Err(PublishError::TransformFailed(format!("{e:?}"))),
        Err(Refusal::AllQueuesFull(peers)) => Err(PublishError::AllQueuesFull(peers)),
    }
}

/// `Behaviour::add_explicit_peer` of gossipsub: the peer is registered
/// afterwards, next to those that were. Subscriptions and configuration stay
/// as they are.
#[verifier::external_body]
pub(crate) fn add_explicit_peer(provider: &mut Provider, peer: &libp2p::PeerId)
    ensures
        explicit_peers(*final(provider)) == explicit_peers(*old(provider)).insert(
            peer_text(*peer),
        ),
        subscribed_topics(*final(provider)) == subscribed_topics(*old(provider)),
        mesh_size(*final(provider)) == mesh_size(*old(provider)),
{
    provider.add_explicit_peer(peer)
}

/// `Behaviour::remove_explicit_peer` of gossipsub: the peer is not registered
/// afterwards, the others are as before. Subscriptions and configuration
/// stay as they are.
#[verifier::external_body]
pub(crate) fn remove_explicit_peer(provider: &mut Provider, peer: &libp2p::PeerId)
    ensures
        explicit_peers(*final(provider)) == explicit_peers(*old(provider)).remove(
            peer_text(*peer),
        ),
        subscribed_topics(*final(provider)) == subscribed_topics(*old(provider)),
        mesh_size(*final(provider)) == mesh_size(*old(provider)),
{
    provider.remove_explicit_peer(peer)
}

} // verus!

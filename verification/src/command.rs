//! Commands from a front end to the coordinator. Each carries the slot that
//! takes the one reply to it.

use crate::message::Message;
use tokio::sync::oneshot;
use vstd::prelude::*;

verus! {

#[verifier::external_type_specification]
#[verifier::external_body]
#[verifier::reject_recursive_types(T)]
pub struct ExReplySender<T>(oneshot::Sender<T>);

#[verifier::external_type_specification]
#[verifier::external_body]
#[verifier::reject_recursive_types(T)]
pub struct ExReplyReceiver<T>(oneshot::Receiver<T>);

// The receiving end is a future whose output holds this error; Verus reads
// that impl along with the type and asks for the error to be declared.
#[verifier::external_type_specification]
#[verifier::external_body]
pub struct ExRecvError(oneshot::error::RecvError);

/// What a front end asks of the coordinator.
#[derive(Debug)]
pub enum Command {
    /// Publish the message on the current topic.
    SendMessage { response_sender: oneshot::Sender<String>, msg: Message },
    /// Make the named topic the current one.
    Subscribe { response_sender: oneshot::Sender<String>, topic_name: String },
    /// Leave the named topic; no topic is current afterwards.
    Unsubscribe { response_sender: oneshot::Sender<String>, topic_name: String },
}

/// What a command asks for: the command without its reply slot.
pub enum Request {
    SendMessage(crate::message::MessageView),
    Subscribe(Seq<char>),
    Unsubscribe(Seq<char>),
}

/// `oneshot::channel` of tokio: a fresh slot for one reply, and the end that
/// waits for it.
#[verifier::external_body]
pub(crate) fn reply_slot() -> (ends: (oneshot::Sender<String>, oneshot::Receiver<String>)) {
    oneshot::channel()
}

/// `oneshot::Sender::send` of tokio: hands the reply to the waiting end, or
/// gives it back where that end is gone.
#[verifier::external_body]
pub(crate) fn fulfil(slot: oneshot::Sender<String>, reply: String) -> (r: Result<(), String>)
    ensures
        r matches Err(returned) ==> returned == reply,
{
    slot.send(reply)
}

impl Command {
    /// What the command asks for.
    pub open spec fn request(self) -> Request {
        match self {
            Command::SendMessage { msg, .. } => Request::SendMessage(msg@),
            Command::Subscribe { topic_name, .. } => Request::Subscribe(topic_name@),
            Command::Unsubscribe { topic_name, .. } => Request::Unsubscribe(topic_name@),
        }
    }

    /// A command to send `msg`, and the end on which its reply arrives.
    pub fn new_send_message(msg: Message) -> (r: (Command, oneshot::Receiver<String>))
        ensures
            r.0.request() == Request::SendMessage(msg@),
    {
        let (response_sender, response_receiver) = reply_slot();
        let command = Command::SendMessage { response_sender, msg };
        (command, response_receiver)
    }

    /// A command to subscribe to the named topic, and the end on which its
    /// reply arrives.
    pub fn new_subscribe(topic_name: String) -> (r: (Command, oneshot::Receiver<String>))
        ensures
            r.0.request() == Request::Subscribe(topic_name@),
    {
        let (response_sender, response_receiver) = reply_slot();
        let command = Command::Subscribe { response_sender, topic_name };
        (command, response_receiver)
    }

    /// A command to unsubscribe from the named topic, and the end on which
    /// its reply arrives.
    pub fn new_unsubscribe(topic_name: String) -> (r: (Command, oneshot::Receiver<String>))
        ensures
            r.0.request() == Request::Unsubscribe(topic_name@),
    {
        let (response_sender, response_receiver) = reply_slot();
        let command = Command::Unsubscribe { response_sender, topic_name };
        (command, response_receiver)
    }
}

} // verus!

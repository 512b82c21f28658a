//! Error types of the chat node, each with the text shown for it.

use vstd::prelude::*;
use vstd::std_specs::convert::FromSpecImpl;
use vstd::string::*;

verus! {

/// Why an attachment could not be built from a path.
#[derive(Debug, Clone, Copy, PartialEq, Eq)]
pub enum FileError {
    /// The file could not be read, or the path names no file.
    CouldntReadFile,
    /// The file name is not valid UTF-8.
    WrongEncoding,
}

/// Why the provider did not publish a message.
#[derive(Debug, Clone, PartialEq, Eq)]
pub enum PublishError {
    /// The message has been published before.
    Duplicate,
    /// Signing the message failed; the field describes how.
    SigningError(String),
    /// No peer is there to send the message to.
    InsufficientPeers,
    /// The message is larger than the provider transmits.
    MessageTooLarge,
    /// Transforming the payload failed; the field describes how.
    TransformFailed(String),
    /// The send queues of all peers were full; the field counts the peers tried.
    AllQueuesFull(usize),
}

/// Why the provider did not subscribe to a topic.
#[derive(Debug, Clone, PartialEq, Eq)]
pub enum SubscribeError {
    /// The subscription could not be announced; the field describes why.
    PublishError(String),
    /// The provider's filter does not allow the topic.
    NotAllowed,
}

/// Why a message was not sent.
#[derive(Debug, Clone, PartialEq, Eq)]
pub enum SendingError {
    /// The node is subscribed to no topic.
    NoSubscribedTopic,
    /// The message could not be encoded.
    CantEncodeMessage,
    /// The provider refused to publish.
    Other(PublishError),
}

/// The character for a decimal digit.
pub open spec fn digit_char(d: nat) -> char
    recommends
        d < 10,
{
    if d == 0 {
        '0'
    } else if d == 1 {
        '1'
    } else if d == 2 {
        '2'
    } else if d == 3 {
        '3'
    } else if d == 4 {
        '4'
    } else if d == 5 {
        '5'
    } else if d == 6 {
        '6'
    } else if d == 7 {
        '7'
    } else if d == 8 {
        '8'
    } else {
        '9'
    }
}

/// A number in decimal, without leading zeros.
pub open spec fn decimal_text(n: nat) -> Seq<char>
    decreases n,
{
    if n < 10 {
        seq![digit_char(n)]
    } else {
        decimal_text(n / 10).push(digit_char(n % 10))
    }
}

fn digit_str(d: usize) -> (s: &'static str)
    requires
        d < 10,
    ensures
        s@ == seq![digit_char(d as nat)],
{
    proof {
        reveal_strlit("0");
        reveal_strlit("1");
        reveal_strlit("2");
        reveal_strlit("3");
        reveal_strlit("4");
        reveal_strlit("5");
        reveal_strlit("6");
        reveal_strlit("7");
        reveal_strlit("8");
        reveal_strlit("9");
    }
    let s = if d == 0 {
        "0"
    } else if d == 1 {
        "1"
    } else if d == 2 {
        "2"
    } else if d == 3 {
        "3"
    } else if d == 4 {
        "4"
    } else if d == 5 {
        "5"
    } else if d == 6 {
        "6"
    } else if d == 7 {
        "7"
    } else if d == 8 {
        "8"
    } else {
        "9"
    };
    assert(s@ =~= seq![digit_char(d as nat)]);
    s
}

/// Renders a number in decimal.
pub fn decimal(n: usize) -> (s: String)
    ensures
        s@ == decimal_text(n as nat),
    decreases n,
{
    if n < 10 {
        String::from_str(digit_str(n))
    } else {
        let s = decimal(n / 10).concat(digit_str(n % 10));
        assert(s@ =~= decimal_text(n as nat));
        s
    }
}

impl FileError {
    /// The text shown for this error.
    pub open spec fn text(self) -> Seq<char> {
        match self {
            FileError::CouldntReadFile => "Couldn't read file"@,
            FileError::WrongEncoding => "Filename is not in UTF-8"@,
        }
    }

    /// Renders the error for display.
    pub fn to_string(&self) -> (s: String)
        ensures
            s@ == self.text(),
    {
        match self {
            FileError::CouldntReadFile => String::from_str("Couldn't read file"),
            FileError::WrongEncoding => String::from_str("Filename is not in UTF-8"),
        }
    }
}

impl PublishError {
    /// The text shown for this error: the variant's name, with its field in
    /// parentheses where it has one.
    pub open spec fn text(self) -> Seq<char> {
        match self {
            PublishError::Duplicate => "Duplicate"@,
            PublishError::SigningError(how) => "SigningError("@ + how@ + ")"@,
            PublishError::InsufficientPeers => "InsufficientPeers"@,
            PublishError::MessageTooLarge => "MessageTooLarge"@,
            PublishError::TransformFailed(how) => "TransformFailed("@ + how@ + ")"@,
            PublishError::AllQueuesFull(peers) => "AllQueuesFull("@ + decimal_text(peers as nat)
                + ")"@,
        }
    }

    /// Renders the error for display.
    pub fn to_string(&self) -> (s: String)
        ensures
            s@ == self.text(),
    {
        match self {
            PublishError::Duplicate => String::from_str("Duplicate"),
            PublishError::SigningError(how) => String::from_str("SigningError(").concat(
                how.as_str(),
            ).concat(")"),
            PublishError::InsufficientPeers => String::from_str("InsufficientPeers"),
            PublishError::MessageTooLarge => String::from_str("MessageTooLarge"),
            PublishError::TransformFailed(how) => String::from_str("TransformFailed(").concat(
                how.as_str(),
            ).concat(")"),
            PublishError::AllQueuesFull(peers) => {
                let count = decimal(*peers);
                String::from_str("AllQueuesFull(").concat(count.as_str()).concat(")")
            },
        }
    }
}

impl SubscribeError {
    /// The text shown for this error.
    pub open spec fn text(self) -> Seq<char> {
        match self {
            SubscribeError::PublishError(why) => "PublishError("@ + why@ + ")"@,
            SubscribeError::NotAllowed => "NotAllowed"@,
        }
    }

    /// Renders the error for display.
    pub fn to_string(&self) -> (s: String)
        ensures
            s@ == self.text(),
    {
        match self {
            SubscribeError::PublishError(why) => String::from_str("PublishError(").concat(
                why.as_str(),
            ).concat(")"),
            SubscribeError::NotAllowed => String::from_str("NotAllowed"),
        }
    }
}

impl SendingError {
    /// The text shown for this error.
    pub open spec fn text(self) -> Seq<char> {
        match self {
            SendingError::NoSubscribedTopic => "Swarm is not subscribed to the topic"@,
            SendingError::CantEncodeMessage => "Message encoding error"@,
            SendingError::Other(e) => "Other error "@ + e.text(),
        }
    }

    /// Renders the error for display.
    pub fn to_string(&self) -> (s: String)
        ensures
            s@ == self.text(),
    {
        match self {
            SendingError::NoSubscribedTopic => String::from_str(
                "Swarm is not subscribed to the topic",
            ),
            SendingError::CantEncodeMessage => String::from_str("Message encoding error"),
            SendingError::Other(e) => {
                let inner = e.to_string();
                String::from_str("Other error ").concat(inner.as_str())
            },
        }
    }
}

impl From<PublishError> for SendingError {
    /// A refusal of the provider is a sending error of its own kind.
    fn from(error: PublishError) -> (r: SendingError) {
        SendingError::Other(error)
    }
}

impl FromSpecImpl<PublishError> for SendingError {
    open spec fn obeys_from_spec() -> bool {
        true
    }

    open spec fn from_spec(error: PublishError) -> SendingError {
        SendingError::Other(error)
    }
}

} // verus!

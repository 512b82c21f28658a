//! Peers, and the short label a peer is shown under.

use vstd::prelude::*;
use vstd::string::*;

verus! {

#[verifier::external_type_specification]
#[verifier::external_body]
pub struct ExPeerId(libp2p::PeerId);

/// The base-58 text of a peer's identity.
pub uninterp spec fn peer_text(peer: libp2p::PeerId) -> Seq<char>;

/// `PeerId::to_base58` of libp2p: the base-58 text of the peer's identity,
/// which is a function of the identity alone.
#[verifier::external_body]
pub(crate) fn peer_to_base58(peer: &libp2p::PeerId) -> (text: String)
    ensures
        text@ == peer_text(*peer),
{
    peer.to_base58()
}

/// How many characters of a peer's text a label keeps.
pub const LABEL_LEN: usize = 8;

/// The label for a text: its first `LABEL_LEN` characters, or all of it where
/// it is shorter, followed by three dots.
pub open spec fn short_label(text: Seq<char>) -> Seq<char> {
    if text.len() <= LABEL_LEN {
        text + "..."@
    } else {
        text.take(LABEL_LEN as int) + "..."@
    }
}

/// A shortened peer identity, for display only. Different peers may share a
/// label.
#[derive(Debug, PartialEq, Eq)]
pub struct ShortPeerId(String);

impl View for ShortPeerId {
    type V = Seq<char>;

    closed spec fn view(&self) -> Seq<char> {
        self.0@
    }
}

impl ShortPeerId {
    /// The label of the peer: the start of its base-58 text and three dots.
    pub fn from(peer_id: &libp2p::PeerId) -> (short: ShortPeerId)
        ensures
            short@ == short_label(peer_text(*peer_id)),
    {
        let text = peer_to_base58(peer_id);
        ShortPeerId::shorten(text.as_str())
    }

    /// The label for the text of an identity.
    pub fn shorten(text: &str) -> (short: ShortPeerId)
        ensures
            short@ == short_label(text@),
    {
        let len = text.unicode_len();
        let keep = if len <= LABEL_LEN {
            len
        } else {
            LABEL_LEN
        };
        let head = text.substring_char(0, keep);
        assert(len <= LABEL_LEN ==> head@ =~= text@);
        ShortPeerId(String::from_str(head).concat("..."))
    }

    /// The label as text.
    pub fn to_string(&self) -> (s: String)
        ensures
            s@ == self@,
    {
        self.0.clone()
    }
}

} // verus!

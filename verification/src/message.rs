//! The two frame vocabularies and the structural adapters between them.
//!
//! The downstream (client-facing) vocabulary has exactly the standard frame
//! categories: text, binary, ping, pong, close. The upstream (service-facing)
//! vocabulary has every one of those and additionally a raw low-level frame
//! that the downstream side cannot represent. The adapters map structurally:
//! no content, encoding, or fragmentation transformation occurs.

use vstd::prelude::*;

verus! {

/// The body of a close frame: a status code and a human-readable reason.
/// A present body with an empty reason is distinct from an absent body.
#[derive(Clone, Debug, PartialEq, Eq)]
pub struct CloseBody {
    pub code: u16,
    pub reason: String,
}

/// Spec-level image of a close body.
pub struct CloseBodyView {
    pub code: u16,
    pub reason: Seq<char>,
}

impl View for CloseBody {
    type V = CloseBodyView;

    open spec fn view(&self) -> CloseBodyView {
        CloseBodyView { code: self.code, reason: self.reason@ }
    }
}

/// A frame in the downstream (client-facing) vocabulary.
#[derive(Clone, Debug, PartialEq, Eq)]
pub enum DownMessage {
    Text(String),
    Binary(Vec<u8>),
    Ping(Vec<u8>),
    Pong(Vec<u8>),
    Close(Option<CloseBody>),
}

/// A frame in the upstream (service-facing) vocabulary. `Frame` is a raw
/// low-level frame, carried here only by its payload bytes; the downstream
/// vocabulary has no equivalent for it.
#[derive(Clone, Debug, PartialEq, Eq)]
pub enum UpMessage {
    Text(String),
    Binary(Vec<u8>),
    Ping(Vec<u8>),
    Pong(Vec<u8>),
    Close(Option<CloseBody>),
    Frame(Vec<u8>),
}

/// Spec-level image of a downstream frame.
pub enum DownMessageView {
    Text(Seq<char>),
    Binary(Seq<u8>),
    Ping(Seq<u8>),
    Pong(Seq<u8>),
    Close(Option<CloseBodyView>),
}

/// Spec-level image of an upstream frame.
pub enum UpMessageView {
    Text(Seq<char>),
    Binary(Seq<u8>),
    Ping(Seq<u8>),
    Pong(Seq<u8>),
    Close(Option<CloseBodyView>),
    Frame(Seq<u8>),
}

pub open spec fn close_view(b: Option<CloseBody>) -> Option<CloseBodyView> {
    match b {
        Some(c) => Some(c@),
        None => None,
    }
}

impl View for DownMessage {
    type V = DownMessageView;

    open spec fn view(&self) -> DownMessageView {
        match self {
            DownMessage::Text(s) => DownMessageView::Text(s@),
            DownMessage::Binary(b) => DownMessageView::Binary(b@),
            DownMessage::Ping(b) => DownMessageView::Ping(b@),
            DownMessage::Pong(b) => DownMessageView::Pong(b@),
            DownMessage::Close(b) => DownMessageView::Close(close_view(*b)),
        }
    }
}

impl View for UpMessage {
    type V = UpMessageView;

    open spec fn view(&self) -> UpMessageView {
        match self {
            UpMessage::Text(s) => UpMessageView::Text(s@),
            UpMessage::Binary(b) => UpMessageView::Binary(b@),
            UpMessage::Ping(b) => UpMessageView::Ping(b@),
            UpMessage::Pong(b) => UpMessageView::Pong(b@),
            UpMessage::Close(b) => UpMessageView::Close(close_view(*b)),
            UpMessage::Frame(b) => UpMessageView::Frame(b@),
        }
    }
}

/// The upstream image of a downstream frame. Every downstream frame has one:
/// the mapping is total and purely structural.
pub open spec fn up_of_down(m: DownMessageView) -> UpMessageView {
    match m {
        DownMessageView::Text(s) => UpMessageView::Text(s),
        DownMessageView::Binary(b) => UpMessageView::Binary(b),
        DownMessageView::Ping(b) => UpMessageView::Ping(b),
        DownMessageView::Pong(b) => UpMessageView::Pong(b),
        DownMessageView::Close(b) => UpMessageView::Close(b),
    }
}

/// The downstream image of an upstream frame, or `None` for the one variant
/// the downstream vocabulary cannot represent: such a frame is silently
/// dropped, never forwarded as an error or a synthesized close.
pub open spec fn down_of_up(m: UpMessageView) -> Option<DownMessageView> {
    match m {
        UpMessageView::Text(s) => Some(DownMessageView::Text(s)),
        UpMessageView::Binary(b) => Some(DownMessageView::Binary(b)),
        UpMessageView::Ping(b) => Some(DownMessageView::Ping(b)),
        UpMessageView::Pong(b) => Some(DownMessageView::Pong(b)),
        UpMessageView::Close(b) => Some(DownMessageView::Close(b)),
        UpMessageView::Frame(_) => None,
    }
}

/// Adapts a downstream frame for the upstream session. Total: every
/// downstream frame maps, unchanged in content.
pub fn to_upstream(m: DownMessage) -> (r: UpMessage)
    ensures
        r@ == up_of_down(m@),
{
    match m {
        DownMessage::Text(s) => UpMessage::Text(s),
        DownMessage::Binary(b) => UpMessage::Binary(b),
        DownMessage::Ping(b) => UpMessage::Ping(b),
        DownMessage::Pong(b) => UpMessage::Pong(b),
        DownMessage::Close(b) => UpMessage::Close(b),
    }
}

/// Adapts an upstream frame for the downstream session, or returns `None`
/// for a raw low-level frame, which has no downstream equivalent.
pub fn to_downstream(m: UpMessage) -> (r: Option<DownMessage>)
    ensures
        (match down_of_up(m@) {
            Some(v) => r matches Some(d) && d@ == v,
            None => r matches None,
        }),
{
    match m {
        UpMessage::Text(s) => Some(DownMessage::Text(s)),
        UpMessage::Binary(b) => Some(DownMessage::Binary(b)),
        UpMessage::Ping(b) => Some(DownMessage::Ping(b)),
        UpMessage::Pong(b) => Some(DownMessage::Pong(b)),
        UpMessage::Close(b) => Some(DownMessage::Close(b)),
        UpMessage::Frame(_) => None,
    }
}

/// Every frame both vocabularies support survives the round trip: adapting
/// it downstream-to-upstream and back returns the same frame.
pub proof fn lemma_adapter_round_trip(m: DownMessageView)
    ensures
        down_of_up(up_of_down(m)) == Some(m),
{
}

} // verus!

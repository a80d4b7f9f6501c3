//! WebSocket messages, as the agent reads and writes them.

use vstd::prelude::*;

verus! {

/// Why the other side closes the connection.
#[derive(Debug, PartialEq, Eq)]
pub struct CloseFrame {
    pub code: u16,
    pub reason: String,
}

/// A message on the signalling connection.
#[derive(Debug, PartialEq, Eq)]
pub enum WsMessage {
    Text(String),
    Binary(Vec<u8>),
    Ping(Vec<u8>),
    Pong(Vec<u8>),
    Close(Option<CloseFrame>),
}

/// What a `CloseFrame` says.
pub struct CloseFrameView {
    pub code: u16,
    pub reason: Seq<char>,
}

/// What a `WsMessage` says.
pub enum WsMessageView {
    Text(Seq<char>),
    Binary(Seq<u8>),
    Ping(Seq<u8>),
    Pong(Seq<u8>),
    Close(Option<CloseFrameView>),
}

impl View for CloseFrame {
    type V = CloseFrameView;

    open spec fn view(&self) -> CloseFrameView {
        CloseFrameView { code: self.code, reason: self.reason@ }
    }
}

impl View for WsMessage {
    type V = WsMessageView;

    open spec fn view(&self) -> WsMessageView {
        match self {
            WsMessage::Text(text) => WsMessageView::Text(text@),
            WsMessage::Binary(data) => WsMessageView::Binary(data@),
            WsMessage::Ping(data) => WsMessageView::Ping(data@),
            WsMessage::Pong(data) => WsMessageView::Pong(data@),
            WsMessage::Close(None) => WsMessageView::Close(None),
            WsMessage::Close(Some(frame)) => WsMessageView::Close(Some(frame@)),
        }
    }
}

/// The text that `tungstenite` prints for a message when it is formatted for debugging.
pub uninterp spec fn message_debug(message: WsMessageView) -> Seq<char>;

/// The `Debug` output of `tungstenite::Message`, which is derived: it depends on the message
/// alone. A close code stands for the variant that `CloseCode::from` gives it.
#[verifier::external_body]
pub(crate) fn debug_text(message: &WsMessage) -> (result: String)
    ensures
        result@ == message_debug(message@),
{
    let message = match message {
        WsMessage::Text(text) => tungstenite::Message::Text(text.clone()),
        WsMessage::Binary(data) => tungstenite::Message::Binary(data.clone()),
        WsMessage::Ping(data) => tungstenite::Message::Ping(data.clone()),
        WsMessage::Pong(data) => tungstenite::Message::Pong(data.clone()),
        WsMessage::Close(None) => tungstenite::Message::Close(None),
        WsMessage::Close(Some(frame)) => tungstenite::Message::Close(
            Some(tungstenite::protocol::CloseFrame {
                code: frame.code.into(),
                reason: frame.reason.clone().into(),
            }),
        ),
    };
    format!("{:?}", message)
}

/// What a message says is what it holds.
pub proof fn message_view_keeps_the_content(message: WsMessage)
    ensures
        message matches WsMessage::Text(text) ==> message@ == WsMessageView::Text(text@),
        message matches WsMessage::Binary(data) ==> message@ == WsMessageView::Binary(data@),
        message matches WsMessage::Ping(data) ==> message@ == WsMessageView::Ping(data@),
        message matches WsMessage::Pong(data) ==> message@ == WsMessageView::Pong(data@),
        message matches WsMessage::Close(None) ==> message@ == WsMessageView::Close(None),
        message matches WsMessage::Close(Some(frame)) ==> message@ == WsMessageView::Close(
            Some(CloseFrameView { code: frame.code, reason: frame.reason@ }),
        ),
{
}

} // verus!

//! WebSocket messages and the text that they carry.
use tungstenite::protocol::frame::coding::CloseCode;
use tungstenite::protocol::frame::{CloseFrame, Frame, FrameHeader};
use tungstenite::Message;
use vstd::prelude::*;
use vstd::string::*;
use vstd::utf8::*;

verus! {

/// The code and the reason that a peer gives for closing.
#[derive(Debug, PartialEq, Eq)]
pub struct WsCloseFrame {
    pub code: u16,
    pub reason: String,
}

/// A WebSocket message.
#[derive(Debug, PartialEq, Eq)]
pub enum WsMessage {
    Text(String),
    Binary(Vec<u8>),
    Ping(Vec<u8>),
    Pong(Vec<u8>),
    Close(Option<WsCloseFrame>),
    /// The payload of a raw frame.
    Frame(Vec<u8>),
}

/// The text that bytes encode, if they are valid UTF-8.
pub open spec fn utf8_text(data: Seq<u8>) -> Option<Seq<char>> {
    if valid_utf8(data) {
        Some(decode_utf8(data))
    } else {
        None
    }
}

impl WsMessage {
    /// The text of the message: a close message carries its reason, and bytes have to be UTF-8.
    pub open spec fn text(self) -> Option<Seq<char>> {
        match self {
            WsMessage::Text(text) => Some(text@),
            WsMessage::Binary(data) => utf8_text(data@),
            WsMessage::Ping(data) => utf8_text(data@),
            WsMessage::Pong(data) => utf8_text(data@),
            WsMessage::Close(Some(frame)) => Some(frame.reason@),
            WsMessage::Close(None) => Some(Seq::empty()),
            WsMessage::Frame(data) => utf8_text(data@),
        }
    }

    /// The text of the message, or the empty text if it has none.
    pub open spec fn text_or_default(self) -> Seq<char> {
        match self.text() {
            Some(text) => text,
            None => Seq::empty(),
        }
    }

    /// The text of the message, or the empty text if it has none.
    pub fn into_text_or_default(self) -> (text: String)
        ensures
            text@ == self.text_or_default(),
        opens_invariants none
    {
        match into_text(self) {
            Some(text) => text,
            None => empty_text(),
        }
    }
}

/// The empty text, taken from a close message without a reason. `String::new` makes no promise
/// on `opens_invariants`.
fn empty_text() -> (text: String)
    ensures
        text@ == Seq::<char>::empty(),
    opens_invariants none
{
    loop
        decreases 0int,
    {
        if let Some(text) = into_text(WsMessage::Close(None)) {
            return text;
        }
    }
}

/// Calls `tungstenite::Message::into_text` on the same message. A text message gives its text
/// and a close message its reason, empty if there is none; every other payload gives the text
/// that it encodes, or an error if it is not valid UTF-8.
#[verifier::external_body]
fn into_text(message: WsMessage) -> (text: Option<String>)
    ensures
        match text {
            Some(text) => message.text() == Some(text@),
            None => message.text() is None,
        },
    opens_invariants none
{
    let message = match message {
        WsMessage::Text(text) => Message::Text(text),
        WsMessage::Binary(data) => Message::Binary(data),
        WsMessage::Ping(data) => Message::Ping(data),
        WsMessage::Pong(data) => Message::Pong(data),
        WsMessage::Close(frame) => Message::Close(
            frame.map(|f| CloseFrame { code: CloseCode::from(f.code), reason: f.reason.into() }),
        ),
        WsMessage::Frame(data) => Message::Frame(Frame::from_payload(FrameHeader::default(), data)),
    };
    message.into_text().ok()
}

/// A text message is carried character for character, whatever its length. A payload of bytes is
/// carried as the text that it encodes, and a close message as its reason. The text is empty
/// only if the message says so or its bytes are not UTF-8.
pub proof fn law_text_is_carried(message: WsMessage, text: String)
    requires
        call_ensures(WsMessage::into_text_or_default, (message,), text),
    ensures
        match message {
            WsMessage::Text(t) => text@ == t@,
            WsMessage::Close(Some(frame)) => text@ == frame.reason@,
            WsMessage::Close(None) => text@.len() == 0,
            WsMessage::Binary(data) | WsMessage::Ping(data) | WsMessage::Pong(data)
            | WsMessage::Frame(data) => {
                &&& valid_utf8(data@) ==> encode_utf8(text@) == data@
                &&& !valid_utf8(data@) ==> text@.len() == 0
            },
        },
{
    match message {
        WsMessage::Binary(data) | WsMessage::Ping(data) | WsMessage::Pong(data)
        | WsMessage::Frame(data) => {
            if valid_utf8(data@) {
                decode_utf8_encode_utf8(data@);
            }
        },
        _ => {},
    }
}

/// It does not matter whether a device sends its text as text or as the bytes of the text.
pub proof fn law_text_and_bytes_agree(
    sent: String,
    data: Vec<u8>,
    as_text: String,
    as_bytes: String,
)
    requires
        data@ == encode_utf8(sent@),
        call_ensures(WsMessage::into_text_or_default, (WsMessage::Text(sent),), as_text),
        call_ensures(WsMessage::into_text_or_default, (WsMessage::Binary(data),), as_bytes),
    ensures
        as_text@ == as_bytes@,
        as_bytes@ == sent@,
{
    encode_utf8_valid_utf8(sent@);
    encode_utf8_decode_utf8(sent@);
}

} // verus!

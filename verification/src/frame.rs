//! The text of what comes over a WebSocket.
use tokio_tungstenite::tungstenite;
use vstd::prelude::*;

verus! {

/// What a WebSocket brings.
#[derive(Clone, Debug, PartialEq, Eq)]
pub enum Frame {
    Text(String),
    Binary(Vec<u8>),
    Ping(Vec<u8>),
    Pong(Vec<u8>),
    /// The end of the stream, with a code and a reason where they are given.
    Close(Option<(u16, String)>),
}

/// The text that `bytes` encode in UTF-8, if they do.
pub open spec fn utf8_text(bytes: Seq<u8>) -> Option<Seq<char>> {
    if vstd::utf8::valid_utf8(bytes) {
        Some(vstd::utf8::decode_utf8(bytes))
    } else {
        None
    }
}

impl Frame {
    /// The text of a frame: its own, that which its bytes encode, or the reason of a close.
    pub open spec fn text(self) -> Option<Seq<char>> {
        match self {
            Frame::Text(text) => Some(text@),
            Frame::Binary(bytes) => utf8_text(bytes@),
            Frame::Ping(bytes) => utf8_text(bytes@),
            Frame::Pong(bytes) => utf8_text(bytes@),
            Frame::Close(None) => Some(Seq::empty()),
            Frame::Close(Some((_, reason))) => Some(reason@),
        }
    }
}

/// `tungstenite::Error`, opaque.
#[verifier::external_type_specification]
#[verifier::external_body]
pub struct ExTungsteniteError(tungstenite::Error);

/// Calls `to_text` of a `tungstenite::Message`.
///
/// Claims that text comes back as it is, that other payloads come back decoded where they are
/// UTF-8 and as an error where they are not, and that a close frame gives its reason, or nothing.
#[verifier::external_body]
fn message_to_text(frame: &Frame) -> (text: Result<String, tungstenite::Error>)
    ensures
        text is Ok <==> frame.text() is Some,
        text matches Ok(text) ==> text@ == frame.text().unwrap(),
{
    match frame.clone() {
        Frame::Text(text) => tungstenite::Message::text(text),
        Frame::Binary(bytes) => tungstenite::Message::Binary(bytes.into()),
        Frame::Ping(bytes) => tungstenite::Message::Ping(bytes.into()),
        Frame::Pong(bytes) => tungstenite::Message::Pong(bytes.into()),
        Frame::Close(close) => tungstenite::Message::Close(close.map(|close| {
            tungstenite::protocol::CloseFrame { code: close.0.into(), reason: close.1.into() }
        })),
    }.to_text().map(|text| text.to_owned())
}

/// Why no message comes of what a socket brought.
#[derive(Clone, Copy, Debug, PartialEq, Eq, Structural)]
pub enum FrameError {
    /// The socket failed.
    WebSocket,
    /// The frame holds no text.
    NotText,
}

impl FrameError {
    /// The text of an error.
    pub open spec fn text_spec(self) -> Seq<char> {
        match self {
            FrameError::WebSocket => "WebSocket error"@,
            FrameError::NotText => "Converting to text message"@,
        }
    }

    /// The text of this error.
    pub fn text(&self) -> (text: String)
        ensures
            text@ == self.text_spec(),
    {
        match self {
            FrameError::WebSocket => "WebSocket error".to_owned(),
            FrameError::NotText => "Converting to text message".to_owned(),
        }
    }
}

/// The text of a frame.
pub fn frame_text(frame: &Frame) -> (text: Result<String, FrameError>)
    ensures
        frame.text() is None ==> text == Err::<String, FrameError>(FrameError::NotText),
        frame.text() matches Some(expected) ==> (text matches Ok(text) && text@ == expected),
{
    match message_to_text(frame) {
        Ok(text) => Ok(text),
        Err(_) => Err(FrameError::NotText),
    }
}

/// The text of what a socket brought: that of the frame, or nothing where the socket failed.
pub fn convert_message(received: Option<Frame>) -> (text: Result<String, FrameError>)
    ensures
        received is None ==> text == Err::<String, FrameError>(FrameError::WebSocket),
        received matches Some(frame) ==> {
            &&& frame.text() is None ==> text == Err::<String, FrameError>(FrameError::NotText)
            &&& frame.text() matches Some(expected) ==> (text matches Ok(text) && text@
                == expected)
        },
{
    match received {
        None => Err(FrameError::WebSocket),
        Some(frame) => frame_text(&frame),
    }
}

/// A text frame has its own text, and a close frame the reason that it gives, or an empty text.
pub proof fn law_text_comes_as_it_is(text: String, code: u16, reason: String)
    ensures
        Frame::Text(text).text() == Some(text@),
        Frame::Close(Some((code, reason))).text() == Some(reason@),
        Frame::Close(None).text() matches Some(empty) && empty.len() == 0,
{
}

/// A frame of bytes has the text that encodes to these bytes in UTF-8, whatever the frame is for,
/// and none where no text does.
pub proof fn law_bytes_have_the_text_that_they_encode(bytes: Vec<u8>, text: Seq<char>)
    ensures
        Frame::Binary(bytes).text() == Some(text) <==> vstd::utf8::encode_utf8(text) == bytes@,
        Frame::Ping(bytes).text() == Some(text) <==> vstd::utf8::encode_utf8(text) == bytes@,
        Frame::Pong(bytes).text() == Some(text) <==> vstd::utf8::encode_utf8(text) == bytes@,
{
    vstd::utf8::encode_utf8_valid_utf8(text);
    vstd::utf8::encode_utf8_decode_utf8(text);
    if vstd::utf8::valid_utf8(bytes@) {
        vstd::utf8::decode_utf8_encode_utf8(bytes@);
    }
}

} // verus!

//! The message that the hub delivers over one connection.

use crate::json::{document_members, find_obstacle, obstacle, parse, text_member, Obstacle};
use crate::wire::utf8_text;
use vstd::prelude::*;
use vstd::utf8::*;

verus! {

/// The datatype name that marks a message as text.
pub open spec fn text_datatype() -> Seq<char> {
    "text"@
}

/// The name of the member that holds the payload.
pub open spec fn content_key() -> Seq<char> {
    "content"@
}

/// The name of the member that holds the datatype.
pub open spec fn datatype_key() -> Seq<char> {
    "datatype"@
}

/// The name of the member that holds the sender's secret.
pub open spec fn secret_key() -> Seq<char> {
    "secret"@
}

/// What kind of payload a message carries.
#[derive(Clone, Copy, PartialEq, Eq, Debug, Structural)]
pub enum DataType {
    Text,
    /// Any datatype but text: accepted, never relayed.
    Other,
}

/// Why the bytes of a connection are no message.
#[derive(Clone, Copy, PartialEq, Eq, Debug, Structural)]
pub enum ProtocolError {
    /// The bytes are not UTF-8.
    NotUtf8,
    /// The document is longer than a message may be.
    TooLong,
    /// Arrays and objects are nested deeper than a message may be.
    TooDeep,
    /// The text is not a JSON document that the parser can be trusted with
    /// and accepts.
    Malformed,
    /// `content`, `datatype` or `secret` is absent or is not a string.
    MissingField,
}

/// An [`InboundMessage`] as plain values.
pub struct MessageView {
    pub content: Seq<char>,
    pub datatype: DataType,
    pub secret: Seq<char>,
}

/// One message of the hub. It is built once, from one document, and handed
/// on or dropped as a whole.
#[derive(Clone, PartialEq, Eq, Debug)]
pub struct InboundMessage {
    content: String,
    datatype: DataType,
    secret: String,
}

impl View for InboundMessage {
    type V = MessageView;

    closed spec fn view(&self) -> MessageView {
        MessageView { content: self.content@, datatype: self.datatype, secret: self.secret@ }
    }
}

/// A text that may be absent, as plain values.
pub open spec fn text_view(text: Option<String>) -> Option<Seq<char>> {
    match text {
        Some(s) => Some(s@),
        None => None,
    }
}

/// The outcome of reading a message, as plain values.
pub open spec fn outcome_view(outcome: Result<InboundMessage, ProtocolError>) -> Result<
    MessageView,
    ProtocolError,
> {
    match outcome {
        Ok(message) => Ok(message@),
        Err(e) => Err(e),
    }
}

/// The datatype that a name stands for.
pub open spec fn datatype_named(name: Seq<char>) -> DataType {
    if name == text_datatype() {
        DataType::Text
    } else {
        DataType::Other
    }
}

/// The message that the three members make, where all three are there.
pub open spec fn message_of_fields(
    content: Option<Seq<char>>,
    datatype: Option<Seq<char>>,
    secret: Option<Seq<char>>,
) -> Result<MessageView, ProtocolError> {
    match (content, datatype, secret) {
        (Some(content), Some(datatype), Some(secret)) => Ok(
            MessageView { content, datatype: datatype_named(datatype), secret },
        ),
        _ => Err(ProtocolError::MissingField),
    }
}

/// The text under `key` among the members of a document.
pub open spec fn member_text(members: Map<Seq<char>, Option<Seq<char>>>, key: Seq<char>) -> Option<
    Seq<char>,
> {
    if members.contains_key(key) {
        members[key]
    } else {
        None
    }
}

/// The message that a document's text holds. A document that is too long,
/// too deep or a hazard to the parser is turned away unparsed.
pub open spec fn message_of_text(text: Seq<char>) -> Result<MessageView, ProtocolError> {
    match obstacle(encode_utf8(text)) {
        Some(Obstacle::TooLong) => Err(ProtocolError::TooLong),
        Some(Obstacle::TooDeep) => Err(ProtocolError::TooDeep),
        Some(Obstacle::Hazard) => Err(ProtocolError::Malformed),
        None => match document_members(text) {
            None => Err(ProtocolError::Malformed),
            Some(members) => message_of_fields(
                member_text(members, content_key()),
                member_text(members, datatype_key()),
                member_text(members, secret_key()),
            ),
        },
    }
}

/// The message that the framed bytes of a connection hold.
pub open spec fn message_of_wire(bytes: Seq<u8>) -> Result<MessageView, ProtocolError> {
    if valid_utf8(bytes) {
        message_of_text(decode_utf8(bytes))
    } else {
        Err(ProtocolError::NotUtf8)
    }
}

impl InboundMessage {
    /// A message with exactly these parts.
    pub fn new(content: String, datatype: DataType, secret: String) -> (message: InboundMessage)
        ensures
            message@ == (MessageView { content: content@, datatype, secret: secret@ }),
    {
        InboundMessage { content, datatype, secret }
    }

    /// The payload.
    pub fn content(&self) -> (content: &String)
        ensures
            content@ == self@.content,
    {
        &self.content
    }

    /// The kind of payload.
    pub fn datatype(&self) -> (datatype: DataType)
        ensures
            datatype == self@.datatype,
    {
        self.datatype
    }

    /// The secret that the sender put in.
    pub fn secret(&self) -> (secret: &String)
        ensures
            secret@ == self@.secret,
    {
        &self.secret
    }

    /// Gives up the message for its payload.
    pub fn into_content(self) -> (content: String)
        ensures
            content@ == self@.content,
    {
        self.content
    }

    /// Makes a message of the three members of a document. Each has to be
    /// there; the datatype is text exactly if its name is `text`.
    pub fn from_fields(
        content: Option<String>,
        datatype: Option<String>,
        secret: Option<String>,
    ) -> (outcome: Result<InboundMessage, ProtocolError>)
        ensures
            outcome_view(outcome) == message_of_fields(
                text_view(content),
                text_view(datatype),
                text_view(secret),
            ),
    {
        match (content, datatype, secret) {
            (Some(content), Some(name), Some(secret)) => {
                let datatype = if name == String::from_str("text") {
                    DataType::Text
                } else {
                    DataType::Other
                };
                Ok(InboundMessage { content, datatype, secret })
            },
            _ => Err(ProtocolError::MissingField),
        }
    }

    /// Reads a message from the text of a JSON document.
    pub fn from_json(text: &str) -> (outcome: Result<InboundMessage, ProtocolError>)
        ensures
            outcome_view(outcome) == message_of_text(text@),
    {
        match find_obstacle(text.as_bytes()) {
            Some(Obstacle::TooLong) => {
                return Err(ProtocolError::TooLong);
            },
            Some(Obstacle::TooDeep) => {
                return Err(ProtocolError::TooDeep);
            },
            Some(Obstacle::Hazard) => {
                return Err(ProtocolError::Malformed);
            },
            None => {},
        }
        match parse(text) {
            Ok(document) => {
                let content = text_member(&document, "content");
                let datatype = text_member(&document, "datatype");
                let secret = text_member(&document, "secret");
                InboundMessage::from_fields(content, datatype, secret)
            },
            Err(_) => Err(ProtocolError::Malformed),
        }
    }

    /// Reads a message from the framed bytes of a connection.
    pub fn from_wire(bytes: &[u8]) -> (outcome: Result<InboundMessage, ProtocolError>)
        ensures
            outcome_view(outcome) == message_of_wire(bytes@),
    {
        match utf8_text(bytes) {
            Some(text) => {
                proof {
                    encode_utf8_decode_utf8(text@);
                }
                InboundMessage::from_json(text)
            },
            None => Err(ProtocolError::NotUtf8),
        }
    }
}

} // verus!

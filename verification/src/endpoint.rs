//! The hub-facing endpoint: who it is, whether the hub knows it, and what it
//! does with each connection that the listener accepts.
//!
//! Binding, the TLS handshake and reading the stream happen outside. What
//! came of them arrives here as a [`Connection`].

use crate::message::{message_of_wire, DataType, InboundMessage, MessageView, ProtocolError};
use crate::queue::RelayQueue;
use crate::wire::{frame, framed};
use vstd::prelude::*;
use vstd::seq_lib::to_multiset_build;

verus! {

/// What an endpoint is configured with, and whether the hub has acknowledged
/// it, as plain values.
pub struct EndpointIdentity {
    /// Address the listener binds to.
    pub address: Seq<char>,
    /// Path of the PEM file with the server certificate.
    pub cert: Seq<char>,
    /// Path of the PEM file with the private key.
    pub key: Seq<char>,
    /// The secret that every message of the hub has to carry.
    pub secret: Seq<char>,
    /// Whether the registration handshake with the hub has succeeded.
    pub registered: bool,
}

/// Where a connection failed before it delivered anything.
#[derive(Clone, Copy, PartialEq, Eq, Debug, Structural)]
pub enum TransportError {
    /// The listener could not accept the connection.
    Accept,
    /// The TLS handshake failed.
    Handshake,
}

/// Why a connection put nothing in the queue. Each of these ends the one
/// connection and nothing else.
#[derive(Clone, Copy, PartialEq, Eq, Debug, Structural)]
pub enum EndpointError {
    Transport(TransportError),
    Protocol(ProtocolError),
    /// The message does not carry the endpoint's secret. The peer is told
    /// nothing.
    Authorization,
}

/// What an accepted message led to.
#[derive(Clone, Copy, PartialEq, Eq, Debug, Structural)]
pub enum Disposition {
    /// Its content now waits in the queue.
    Enqueued,
    /// It was in order but is no text, so nothing was enqueued.
    Accepted,
}

/// What the listener got out of one connection attempt.
#[derive(Clone, PartialEq, Eq, Debug)]
pub enum Connection {
    /// Accepting the connection failed.
    AcceptFailed,
    /// The TLS handshake failed.
    HandshakeFailed,
    /// What was read from the stream, the NUL that ends the message and
    /// whatever was read behind it included.
    Stream(Vec<u8>),
}

/// How the listener is to be set up.
#[derive(Clone, PartialEq, Eq, Debug)]
pub struct ListenerPlan {
    /// Address to bind to.
    pub address: String,
    /// PEM file with the server certificate.
    pub cert: String,
    /// PEM file with the private key.
    pub key: String,
    /// Whether the peer's certificate is verified. It never is: any client
    /// certificate is accepted, and the shared secret alone decides who is
    /// heard.
    pub verify_peer: bool,
}

/// The message that a connection delivered.
pub open spec fn message_of(connection: Connection) -> Result<MessageView, EndpointError> {
    match connection {
        Connection::AcceptFailed => Err(EndpointError::Transport(TransportError::Accept)),
        Connection::HandshakeFailed => Err(EndpointError::Transport(TransportError::Handshake)),
        Connection::Stream(bytes) => match message_of_wire(framed(bytes@)) {
            Ok(message) => Ok(message),
            Err(e) => Err(EndpointError::Protocol(e)),
        },
    }
}

/// What a message leads to at an endpoint with this secret.
pub open spec fn disposition_of(secret: Seq<char>, message: MessageView) -> Result<
    Disposition,
    EndpointError,
> {
    if message.secret != secret {
        Err(EndpointError::Authorization)
    } else if message.datatype == DataType::Text {
        Ok(Disposition::Enqueued)
    } else {
        Ok(Disposition::Accepted)
    }
}

/// The pending texts once a message has been dealt with.
pub open spec fn pending_after(pending: Seq<Seq<char>>, secret: Seq<char>, message: MessageView) -> Seq<
    Seq<char>,
> {
    if disposition_of(secret, message) == Ok::<Disposition, EndpointError>(Disposition::Enqueued) {
        pending.push(message.content)
    } else {
        pending
    }
}

impl Connection {
    /// The message that this connection delivered: the bytes before the
    /// first NUL, read as one JSON document. An empty stream is an empty
    /// message.
    pub fn read(&self) -> (outcome: Result<InboundMessage, EndpointError>)
        ensures
            match outcome {
                Ok(message) => message_of(*self) == Ok::<MessageView, EndpointError>(message@),
                Err(e) => message_of(*self) == Err::<MessageView, EndpointError>(e),
            },
    {
        match self {
            Connection::AcceptFailed => Err(EndpointError::Transport(TransportError::Accept)),
            Connection::HandshakeFailed => Err(
                EndpointError::Transport(TransportError::Handshake),
            ),
            Connection::Stream(bytes) => match InboundMessage::from_wire(frame(bytes.as_slice())) {
                Ok(message) => Ok(message),
                Err(e) => Err(EndpointError::Protocol(e)),
            },
        }
    }
}

/// The endpoint that receives what the hub wants said on the chat platform.
#[derive(Debug)]
pub struct DiscordEndpoint {
    address: String,
    cert: String,
    key: String,
    secret: String,
    registered: bool,
}

impl View for DiscordEndpoint {
    type V = EndpointIdentity;

    closed spec fn view(&self) -> EndpointIdentity {
        EndpointIdentity {
            address: self.address@,
            cert: self.cert@,
            key: self.key@,
            secret: self.secret@,
            registered: self.registered,
        }
    }
}

impl DiscordEndpoint {
    /// An endpoint with the given configuration that the hub does not know yet.
    pub fn new(address: String, cert: String, key: String, secret: String) -> (endpoint:
        DiscordEndpoint)
        ensures
            endpoint@ == (EndpointIdentity {
                address: address@,
                cert: cert@,
                key: key@,
                secret: secret@,
                registered: false,
            }),
    {
        DiscordEndpoint { address, cert, key, secret, registered: false }
    }

    /// Whether the hub has acknowledged this endpoint.
    pub fn is_registered(&self) -> (registered: bool)
        ensures
            registered == self@.registered,
    {
        self.registered
    }

    /// Records how the registration handshake with the hub went. Once the hub
    /// has acknowledged the endpoint it stays registered.
    pub fn register(&mut self, acknowledged: bool)
        ensures
            final(self)@ == (EndpointIdentity {
                registered: old(self)@.registered || acknowledged,
                ..old(self)@
            }),
    {
        if acknowledged {
            self.registered = true;
        }
    }

    /// Whether `data` carries this endpoint's secret.
    pub fn is_authorized(&self, data: &InboundMessage) -> (authorized: bool)
        ensures
            authorized == (data@.secret == self@.secret),
    {
        *data.secret() == self.secret
    }

    /// How to set up the listener, or `None` as long as the hub has not
    /// acknowledged the endpoint: an unregistered endpoint does not listen.
    pub fn start(&self) -> (plan: Option<ListenerPlan>)
        ensures
            plan is Some <==> self@.registered,
            plan matches Some(p) ==> p.address@ == self@.address && p.cert@ == self@.cert && p.key@
                == self@.key && !p.verify_peer,
    {
        if self.registered {
            Some(
                ListenerPlan {
                    address: self.address.clone(),
                    cert: self.cert.clone(),
                    key: self.key.clone(),
                    verify_peer: false,
                },
            )
        } else {
            None
        }
    }

    /// Decides what becomes of a message. A text that carries the right
    /// secret is appended to the queue, once. Whatever carries another secret
    /// and whatever is no text leaves the queue as it is.
    pub fn deliver(&self, message: InboundMessage, queue: &mut RelayQueue) -> (outcome: Result<
        Disposition,
        EndpointError,
    >)
        ensures
            outcome == disposition_of(self@.secret, message@),
            final(queue)@ == pending_after(old(queue)@, self@.secret, message@),
            message@.secret == self@.secret && message@.datatype == DataType::Text
                ==> final(queue)@ == old(queue)@.push(message@.content),
            message@.secret != self@.secret ==> final(queue)@ == old(queue)@,
            message@.datatype != DataType::Text ==> final(queue)@ == old(queue)@,
    {
        if !self.is_authorized(&message) {
            Err(EndpointError::Authorization)
        } else {
            match message.datatype() {
                DataType::Text => {
                    queue.push(message.into_content());
                    Ok(Disposition::Enqueued)
                },
                DataType::Other => Ok(Disposition::Accepted),
            }
        }
    }

    /// Deals with one connection from beginning to end. Whatever goes wrong
    /// ends this connection only and leaves the queue as it is.
    pub fn serve(&self, connection: &Connection, queue: &mut RelayQueue) -> (outcome: Result<
        Disposition,
        EndpointError,
    >)
        ensures
            match message_of(*connection) {
                Ok(message) => outcome == disposition_of(self@.secret, message) && final(queue)@
                    == pending_after(old(queue)@, self@.secret, message),
                Err(e) => outcome == Err::<Disposition, EndpointError>(e)
                    && final(queue)@ == old(queue)@,
            },
    {
        match connection.read() {
            Ok(message) => self.deliver(message, queue),
            Err(e) => Err(e),
        }
    }
}

/// A text that carries the endpoint's secret is in the queue exactly once
/// more than before, and no other text is there more or less often.
pub proof fn lemma_enqueued_exactly_once(
    pending: Seq<Seq<char>>,
    secret: Seq<char>,
    message: MessageView,
)
    requires
        message.secret == secret,
        message.datatype == DataType::Text,
    ensures
        pending_after(pending, secret, message).to_multiset().count(message.content)
            == pending.to_multiset().count(message.content) + 1,
        forall|other: Seq<char>|
            other != message.content ==> pending_after(pending, secret, message).to_multiset().count(
                other,
            ) == pending.to_multiset().count(other),
{
    to_multiset_build(pending, message.content);
}

/// A message that carries another secret, or that is no text, changes
/// nothing in the queue.
pub proof fn lemma_rejected_changes_nothing(
    pending: Seq<Seq<char>>,
    secret: Seq<char>,
    message: MessageView,
)
    requires
        message.secret != secret || message.datatype != DataType::Text,
    ensures
        pending_after(pending, secret, message) == pending,
{
}

} // verus!

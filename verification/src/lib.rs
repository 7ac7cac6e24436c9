//! A bridge between a chat platform and a home-assistant hub.
//!
//! The hub delivers one message per secured connection. A text that carries
//! the shared secret waits in the [`queue::RelayQueue`] until the
//! [`relay::OutboundRelayWorker`] hands it on to the chat platform. In the
//! other direction the [`chat::ChatEventLoop`] decides, event by event, what
//! goes to the hub and what the bridge does in voice.
//!
//! Nothing here opens a socket, starts a thread or sleeps. The program
//! around this library does that: it hands in what it received and carries
//! out what comes back.

pub mod bot;
pub mod chat;
pub mod endpoint;
pub mod json;
pub mod message;
pub mod queue;
pub mod relay;
pub mod wire;

//! The chat event loop: what the bridge does with each thing that the
//! chat-platform connection delivers.
//!
//! The connection itself is not here. Whoever owns it hands every outcome of
//! a connect or a receive to [`ChatEventLoop::step`], performs the action
//! that comes back, and stops when told to.

use crate::message::text_datatype;
use vstd::prelude::*;

verus! {

/// The literal message that asks the bridge to join its author in voice.
pub open spec fn voice_trigger() -> Seq<char> {
    "!voice"@
}

/// Life cycle of the connection to the chat platform.
#[derive(Clone, Copy, PartialEq, Eq, Debug, Structural)]
pub enum ChatSession {
    /// The first connection is being made.
    Connecting,
    /// Events are being received.
    Connected,
    /// The transport dropped and a fresh connection is being made.
    Reconnecting,
    /// The loop has ended.
    Closed,
}

/// A place in voice: the server it belongs to (`None` for a private call)
/// and the voice channel.
#[derive(Clone, Copy, PartialEq, Eq, Debug)]
pub struct VoiceLocation {
    pub server: Option<u64>,
    pub channel: u64,
}

/// A message that somebody posted.
#[derive(Clone, PartialEq, Eq, Debug)]
pub struct ChatMessage {
    /// Display name of the author.
    pub author: String,
    pub content: String,
    /// The channel it was posted in.
    pub channel: u64,
}

/// Who is in voice where a voice state changed.
#[derive(Clone, PartialEq, Eq, Debug)]
pub enum VoiceRoster {
    /// The voice channel of each voice state of the server (`None` for a
    /// member who is in no channel).
    Server(Vec<Option<u64>>),
    /// The number of voice states of the private call in the current channel.
    Call(usize),
    /// The server or the call is not part of the session's state.
    Unknown,
}

/// An event of the chat platform, together with the voice presence that the
/// session's state holds once the event has been applied to it.
#[derive(Clone, PartialEq, Eq, Debug)]
pub enum ChatEvent {
    MessageCreate {
        message: ChatMessage,
        /// Where the author is in voice, if anywhere.
        author_voice: Option<VoiceLocation>,
        /// Where the bridge itself is in voice, if anywhere.
        bridge_voice: Option<VoiceLocation>,
    },
    VoiceStateUpdate {
        /// The server whose voice state changed (`None` for a private call).
        server: Option<u64>,
        /// The voice channel that the bridge occupies there, if any.
        current_channel: Option<u64>,
        roster: VoiceRoster,
    },
    /// Any other kind of event.
    Other,
}

/// How the transport to the chat platform failed.
#[derive(Clone, Copy, PartialEq, Eq, Debug)]
pub enum ChatTransportError {
    /// The transport dropped; a new connection can take its place.
    Reconnectable,
    /// The platform closed the connection for good.
    Terminal,
}

/// Why a receive on the chat-platform connection failed.
#[derive(Clone, Copy, PartialEq, Eq, Debug)]
pub enum ReceiveError {
    Transport(ChatTransportError),
    /// Anything else. It is reported and the loop goes on.
    Other,
}

/// Which of the services around the bridge failed to do what an action
/// asked for.
#[derive(Clone, Copy, PartialEq, Eq, Debug)]
pub enum ExternalCapabilityError {
    /// Speech synthesis gave no audio.
    Synthesis,
    /// The hub client could not deliver.
    HubClient,
}

/// What the owner of the connection reports to the loop.
#[derive(Clone, PartialEq, Eq, Debug)]
pub enum Input {
    /// A connection was made and a fresh state snapshot obtained.
    Ready,
    /// An event was received.
    Event(ChatEvent),
    /// A receive failed.
    Failed(ReceiveError),
    /// The last action could not be carried out. It is given up, not tried
    /// again.
    CapabilityFailed(ExternalCapabilityError),
}

/// What the owner of the connection has to do next.
#[derive(Clone, PartialEq, Eq, Debug)]
pub enum Action {
    /// Nothing.
    Ignore,
    /// Synchronize the channels visible to the bridge.
    SynchronizeChannels,
    /// Authenticate again, take a fresh state snapshot, replace the session
    /// with it and report `Ready`.
    Reconnect,
    /// Leave the loop.
    Stop,
    /// Join this voice channel, muted for input.
    JoinVoice(VoiceLocation),
    /// Send this to the hub.
    Forward { author: String, content: String, name: String, datatype: String, secret: String },
    /// Synthesize speech for `content` and, where `play_in` names a place,
    /// stream it there.
    Mimic { content: String, play_in: Option<VoiceLocation> },
    /// Disconnect from this voice channel.
    LeaveVoice(VoiceLocation),
}

/// An [`Action`] as plain values.
pub enum ActionView {
    Ignore,
    SynchronizeChannels,
    Reconnect,
    Stop,
    JoinVoice(VoiceLocation),
    Forward {
        author: Seq<char>,
        content: Seq<char>,
        name: Seq<char>,
        datatype: Seq<char>,
        secret: Seq<char>,
    },
    Mimic { content: Seq<char>, play_in: Option<VoiceLocation> },
    LeaveVoice(VoiceLocation),
}

impl View for Action {
    type V = ActionView;

    open spec fn view(&self) -> ActionView {
        match *self {
            Action::Ignore => ActionView::Ignore,
            Action::SynchronizeChannels => ActionView::SynchronizeChannels,
            Action::Reconnect => ActionView::Reconnect,
            Action::Stop => ActionView::Stop,
            Action::JoinVoice(place) => ActionView::JoinVoice(place),
            Action::Forward { author, content, name, datatype, secret } => ActionView::Forward {
                author: author@,
                content: content@,
                name: name@,
                datatype: datatype@,
                secret: secret@,
            },
            Action::Mimic { content, play_in } => ActionView::Mimic { content: content@, play_in },
            Action::LeaveVoice(place) => ActionView::LeaveVoice(place),
        }
    }
}

/// What the loop is configured with, and the state of its session, as plain
/// values.
pub struct LoopView {
    /// Display name of the bridge's own account on the chat platform.
    pub botname: Seq<char>,
    /// The name under which the bridge speaks to the hub.
    pub name: Seq<char>,
    /// The secret shared with the hub.
    pub secret: Seq<char>,
    /// The one channel whose messages are forwarded.
    pub channel: u64,
    pub session: ChatSession,
}

/// How many of `states` are in `channel`.
pub open spec fn occupants(states: Seq<Option<u64>>, channel: u64) -> nat
    decreases states.len(),
{
    if states.len() == 0 {
        0
    } else {
        occupants(states.drop_last(), channel) + if states.last() == Some(channel) {
            1nat
        } else {
            0nat
        }
    }
}

/// Whether the roster shows at most one occupant of `channel`, which can
/// only be the bridge itself.
pub open spec fn alone_in(roster: VoiceRoster, channel: u64) -> bool {
    match roster {
        VoiceRoster::Server(states) => occupants(states@, channel) <= 1,
        VoiceRoster::Call(n) => n <= 1,
        VoiceRoster::Unknown => false,
    }
}

/// What a posted message calls for.
pub open spec fn on_message(
    config: LoopView,
    message: ChatMessage,
    author_voice: Option<VoiceLocation>,
    bridge_voice: Option<VoiceLocation>,
) -> ActionView {
    if message.content@ == voice_trigger() {
        match author_voice {
            Some(place) => ActionView::JoinVoice(place),
            None => ActionView::Ignore,
        }
    } else if message.author@ != config.botname && message.channel == config.channel {
        ActionView::Forward {
            author: message.author@,
            content: message.content@,
            name: config.name,
            datatype: text_datatype(),
            secret: config.secret,
        }
    } else if message.author@ == config.botname {
        ActionView::Mimic { content: message.content@, play_in: bridge_voice }
    } else {
        ActionView::Ignore
    }
}

/// What a change of somebody's voice state calls for.
pub open spec fn on_voice_update(
    server: Option<u64>,
    current_channel: Option<u64>,
    roster: VoiceRoster,
) -> ActionView {
    match current_channel {
        Some(channel) => if alone_in(roster, channel) {
            ActionView::LeaveVoice(VoiceLocation { server, channel })
        } else {
            ActionView::Ignore
        },
        None => ActionView::Ignore,
    }
}

/// What an event calls for while the session is connected.
pub open spec fn on_event(config: LoopView, event: ChatEvent) -> ActionView {
    match event {
        ChatEvent::MessageCreate { message, author_voice, bridge_voice } => on_message(
            config,
            message,
            author_voice,
            bridge_voice,
        ),
        ChatEvent::VoiceStateUpdate { server, current_channel, roster } => on_voice_update(
            server,
            current_channel,
            roster,
        ),
        ChatEvent::Other => ActionView::Ignore,
    }
}

/// The report that the transport has dropped.
pub open spec fn dropped() -> Input {
    Input::Failed(ReceiveError::Transport(ChatTransportError::Reconnectable))
}

/// The session after `input`.
pub open spec fn next_session(session: ChatSession, input: Input) -> ChatSession {
    match (session, input) {
        (ChatSession::Connecting, Input::Ready) => ChatSession::Connected,
        (ChatSession::Reconnecting, Input::Ready) => ChatSession::Connected,
        (ChatSession::Connected, Input::Failed(ReceiveError::Transport(e))) => match e {
            ChatTransportError::Reconnectable => ChatSession::Reconnecting,
            ChatTransportError::Terminal => ChatSession::Closed,
        },
        _ => session,
    }
}

/// The loop after `input`: the session has moved on, the configuration is
/// what it was.
pub open spec fn after(config: LoopView, input: Input) -> LoopView {
    LoopView { session: next_session(config.session, input), ..config }
}

/// The action that `input` calls for.
pub open spec fn action_for(config: LoopView, input: Input) -> ActionView {
    match (config.session, input) {
        (ChatSession::Connecting, Input::Ready) => ActionView::SynchronizeChannels,
        (ChatSession::Connected, Input::Failed(ReceiveError::Transport(e))) => match e {
            ChatTransportError::Reconnectable => ActionView::Reconnect,
            ChatTransportError::Terminal => ActionView::Stop,
        },
        (ChatSession::Connected, Input::Event(event)) => on_event(config, event),
        (ChatSession::Closed, _) => ActionView::Stop,
        _ => ActionView::Ignore,
    }
}

/// Counts the voice states that are in `channel`.
pub fn count_occupants(states: &Vec<Option<u64>>, channel: u64) -> (n: usize)
    ensures
        n == occupants(states@, channel),
{
    let mut n: usize = 0;
    let mut i: usize = 0;
    while i < states.len()
        invariant
            i <= states.len(),
            n <= i,
            n == occupants(states@.take(i as int), channel),
        decreases states.len() - i,
    {
        proof {
            assert(states@.take(i as int + 1).drop_last() =~= states@.take(i as int));
        }
        let here = match states[i] {
            Some(c) => c == channel,
            None => false,
        };
        if here {
            n = n + 1;
        }
        i = i + 1;
    }
    proof {
        assert(states@.take(i as int) =~= states@);
    }
    n
}

/// The loop that keeps the bridge on the chat platform.
#[derive(Debug)]
pub struct ChatEventLoop {
    botname: String,
    name: String,
    secret: String,
    channel: u64,
    session: ChatSession,
}

impl View for ChatEventLoop {
    type V = LoopView;

    closed spec fn view(&self) -> LoopView {
        LoopView {
            botname: self.botname@,
            name: self.name@,
            secret: self.secret@,
            channel: self.channel,
            session: self.session,
        }
    }
}

impl ChatEventLoop {
    /// A loop whose first connection is still to be made.
    pub fn new(botname: String, name: String, secret: String, channel: u64) -> (chat:
        ChatEventLoop)
        ensures
            chat@ == (LoopView {
                botname: botname@,
                name: name@,
                secret: secret@,
                channel,
                session: ChatSession::Connecting,
            }),
    {
        ChatEventLoop { botname, name, secret, channel, session: ChatSession::Connecting }
    }

    /// Where the session stands.
    pub fn session(&self) -> (session: ChatSession)
        ensures
            session == self@.session,
    {
        self.session
    }

    /// The channel whose messages are forwarded to the hub.
    pub fn channel(&self) -> (channel: u64)
        ensures
            channel == self@.channel,
    {
        self.channel
    }

    fn dispatch_message(
        &self,
        message: ChatMessage,
        author_voice: Option<VoiceLocation>,
        bridge_voice: Option<VoiceLocation>,
    ) -> (action: Action)
        ensures
            action@ == on_message(self@, message, author_voice, bridge_voice),
    {
        let trigger = String::from_str("!voice");
        if message.content == trigger {
            match author_voice {
                Some(place) => Action::JoinVoice(place),
                None => Action::Ignore,
            }
        } else if message.author != self.botname && message.channel == self.channel {
            Action::Forward {
                author: message.author,
                content: message.content,
                name: self.name.clone(),
                datatype: String::from_str("text"),
                secret: self.secret.clone(),
            }
        } else if message.author == self.botname {
            Action::Mimic { content: message.content, play_in: bridge_voice }
        } else {
            Action::Ignore
        }
    }

    fn dispatch_voice_update(
        server: Option<u64>,
        current_channel: Option<u64>,
        roster: VoiceRoster,
    ) -> (action: Action)
        ensures
            action@ == on_voice_update(server, current_channel, roster),
    {
        match current_channel {
            Some(channel) => {
                let alone = match roster {
                    VoiceRoster::Server(states) => count_occupants(&states, channel) <= 1,
                    VoiceRoster::Call(n) => n <= 1,
                    VoiceRoster::Unknown => false,
                };
                if alone {
                    Action::LeaveVoice(VoiceLocation { server, channel })
                } else {
                    Action::Ignore
                }
            },
            None => Action::Ignore,
        }
    }

    /// Takes one report of the connection's owner, moves the session on and
    /// says what to do. The configuration never changes.
    pub fn step(&mut self, input: Input) -> (action: Action)
        ensures
            final(self)@ == after(old(self)@, input),
            action@ == action_for(old(self)@, input),
    {
        match self.session {
            ChatSession::Connecting => match input {
                Input::Ready => {
                    self.session = ChatSession::Connected;
                    Action::SynchronizeChannels
                },
                _ => Action::Ignore,
            },
            ChatSession::Reconnecting => match input {
                Input::Ready => {
                    self.session = ChatSession::Connected;
                    Action::Ignore
                },
                _ => Action::Ignore,
            },
            ChatSession::Connected => match input {
                Input::Ready => Action::Ignore,
                Input::CapabilityFailed(_) => Action::Ignore,
                Input::Failed(ReceiveError::Transport(ChatTransportError::Reconnectable)) => {
                    self.session = ChatSession::Reconnecting;
                    Action::Reconnect
                },
                Input::Failed(ReceiveError::Transport(ChatTransportError::Terminal)) => {
                    self.session = ChatSession::Closed;
                    Action::Stop
                },
                Input::Failed(ReceiveError::Other) => Action::Ignore,
                Input::Event(ChatEvent::MessageCreate { message, author_voice, bridge_voice }) => {
                    self.dispatch_message(message, author_voice, bridge_voice)
                },
                Input::Event(ChatEvent::VoiceStateUpdate { server, current_channel, roster }) => {
                    Self::dispatch_voice_update(server, current_channel, roster)
                },
                Input::Event(ChatEvent::Other) => Action::Ignore,
            },
            ChatSession::Closed => Action::Stop,
        }
    }
}

/// A dropped transport costs one reconnect cycle and nothing else: the loop
/// asks for a reconnect, is connected again once the new connection is
/// ready, and from then on answers every input as it would have before.
pub proof fn lemma_reconnect_resumes(config: LoopView, input: Input)
    requires
        config.session == ChatSession::Connected,
    ensures
        action_for(config, dropped()) == ActionView::Reconnect,
        after(config, dropped()).session == ChatSession::Reconnecting,
        after(after(config, dropped()), Input::Ready) == config,
        action_for(after(after(config, dropped()), Input::Ready), input) == action_for(
            config,
            input,
        ),
{
}

/// Once the platform has closed the connection the loop stays closed and
/// answers everything with `Stop`.
pub proof fn lemma_closed_is_final(config: LoopView, input: Input)
    requires
        config.session == ChatSession::Closed,
    ensures
        after(config, input) == config,
        action_for(config, input) == ActionView::Stop,
{
}

/// When a voice state changes and the bridge is left with at most itself in
/// the channel it occupies, it disconnects from that channel.
pub proof fn lemma_leaves_voice_when_alone(
    config: LoopView,
    server: Option<u64>,
    channel: u64,
    roster: VoiceRoster,
)
    requires
        config.session == ChatSession::Connected,
        alone_in(roster, channel),
    ensures
        action_for(
            config,
            Input::Event(
                ChatEvent::VoiceStateUpdate { server, current_channel: Some(channel), roster },
            ),
        ) == ActionView::LeaveVoice(VoiceLocation { server, channel }),
{
}

/// A message goes to the hub exactly if it is not the voice trigger, was not
/// written by the bridge itself and was posted in the configured channel; it
/// then goes out unchanged, as text, under the configured name and secret.
pub proof fn lemma_what_is_forwarded(
    config: LoopView,
    message: ChatMessage,
    author_voice: Option<VoiceLocation>,
    bridge_voice: Option<VoiceLocation>,
)
    requires
        config.session == ChatSession::Connected,
    ensures
        ({
            let action = action_for(
                config,
                Input::Event(ChatEvent::MessageCreate { message, author_voice, bridge_voice }),
            );
            let wanted = message.content@ != voice_trigger() && message.author@ != config.botname
                && message.channel == config.channel;
            &&& action is Forward <==> wanted
            &&& wanted ==> action == (ActionView::Forward {
                author: message.author@,
                content: message.content@,
                name: config.name,
                datatype: text_datatype(),
                secret: config.secret,
            })
        }),
{
}

} // verus!

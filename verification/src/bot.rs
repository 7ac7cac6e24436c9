//! Configuration of the bridge's chat-platform side.

use crate::chat::{ChatEventLoop, ChatSession, LoopView};
use crate::relay::OutboundRelayWorker;
use vstd::prelude::*;

verus! {

/// A shared secret as it stands in a configuration document, where it may be
/// absent.
#[derive(Clone, Default, PartialEq, Debug)]
pub struct Secret {
    pub secret: Option<String>,
}

/// What the bridge's chat side is configured with.
#[derive(Clone, Default, PartialEq, Debug)]
pub struct BotDetails {
    /// Token with which the bridge logs in to the chat platform.
    pub token: String,
    /// Decimal identifier of the one channel that is bridged.
    pub channel: String,
    /// The secret shared with the hub.
    pub secret: String,
    /// The name under which the bridge speaks to the hub.
    pub name: String,
    /// Display name of the bridge's own account on the chat platform.
    pub botname: String,
}

/// [`BotDetails`] as plain values.
pub struct BotView {
    pub token: Seq<char>,
    pub channel: Seq<char>,
    pub secret: Seq<char>,
    pub name: Seq<char>,
    pub botname: Seq<char>,
}

impl View for BotDetails {
    type V = BotView;

    open spec fn view(&self) -> BotView {
        BotView {
            token: self.token@,
            channel: self.channel@,
            secret: self.secret@,
            name: self.name@,
            botname: self.botname@,
        }
    }
}

/// The bridge's chat side.
#[derive(Debug)]
pub struct DiscordBot {
    token: String,
    channel: String,
    secret: String,
    name: String,
    botname: String,
}

impl View for DiscordBot {
    type V = BotView;

    closed spec fn view(&self) -> BotView {
        BotView {
            token: self.token@,
            channel: self.channel@,
            secret: self.secret@,
            name: self.name@,
            botname: self.botname@,
        }
    }
}

/// Whether `c` is one of the ten decimal digits.
pub open spec fn is_digit(c: char) -> bool {
    '0' <= c <= '9'
}

/// The number that a decimal digit stands for.
pub open spec fn digit_value(c: char) -> nat {
    (c as u32 - '0' as u32) as nat
}

/// The number that a run of decimal digits denotes, most significant first.
pub open spec fn decimal_value(digits: Seq<char>) -> nat
    decreases digits.len(),
{
    if digits.len() == 0 {
        0
    } else {
        10 * decimal_value(digits.drop_last()) + digit_value(digits.last())
    }
}

/// `text` without the one `+` that may lead it.
pub open spec fn unsigned_part(text: Seq<char>) -> Seq<char> {
    if text.len() > 0 && text[0] == '+' {
        text.subrange(1, text.len() as int)
    } else {
        text
    }
}

/// Whether every character of `text` is a decimal digit.
pub open spec fn all_digits(text: Seq<char>) -> bool {
    forall|i: int| 0 <= i < text.len() ==> is_digit(#[trigger] text[i])
}

/// The channel identifier that `text` denotes: an optional `+`, then at least
/// one decimal digit and nothing else, with a value that fits in 64 bits.
pub open spec fn channel_id(text: Seq<char>) -> Option<u64> {
    let digits = unsigned_part(text);
    if digits.len() > 0 && all_digits(digits) && decimal_value(digits) <= u64::MAX {
        Some(decimal_value(digits) as u64)
    } else {
        None
    }
}

/// A run of digits denotes at least what any of its prefixes denotes.
proof fn lemma_decimal_value_grows(digits: Seq<char>, n: int)
    requires
        0 <= n <= digits.len(),
    ensures
        decimal_value(digits.subrange(0, n)) <= decimal_value(digits),
    decreases digits.len() - n,
{
    if n == digits.len() {
        assert(digits.subrange(0, n) =~= digits);
    } else {
        lemma_decimal_value_grows(digits, n + 1);
        let longer = digits.subrange(0, n + 1);
        assert(longer.drop_last() =~= digits.subrange(0, n));
    }
}

/// Reads a channel identifier from its decimal notation.
pub fn parse_channel(text: &str) -> (id: Option<u64>)
    ensures
        id == channel_id(text@),
{
    let mut value: u64 = 0;
    let mut signed: bool = false;
    let mut started: bool = false;
    let mut has_digit: bool = false;
    for c in it: text.chars()
        invariant
            it.seq() == text@,
            started == (it.index() > 0),
            signed == (it.index() > 0 && text@[0] == '+'),
            has_digit == (it.index() > (if signed { 1int } else { 0int })),
            signed ==> unsigned_part(text@) == text@.subrange(1, text@.len() as int),
            !signed && started ==> unsigned_part(text@) == text@,
            ({
                let start: int = if signed { 1 } else { 0 };
                &&& all_digits(text@.subrange(start, it.index() as int))
                &&& value == decimal_value(text@.subrange(start, it.index() as int))
            }),
    {
        let ghost count: int = it.index() as int;
        let ghost start: int = if signed { 1 } else { 0 };
        let ghost before = text@.subrange(start, count);
        if !started && c == '+' {
            signed = true;
            assert(text@.subrange(1, 1) =~= text@.subrange(0, 0));
        } else if '0' <= c && c <= '9' {
            let digit: u64 = (c as u32 - '0' as u32) as u64;
            let ghost after = text@.subrange(start, count + 1);
            proof {
                assert(after.drop_last() =~= before);
                assert(after.last() == c);
                assert forall|i: int| 0 <= i < after.len() implies is_digit(#[trigger] after[i]) by {
                    if i < before.len() {
                        assert(after[i] == before[i]);
                    }
                }
                let digits = unsigned_part(text@);
                assert(digits.subrange(0, after.len() as int) =~= after);
                lemma_decimal_value_grows(digits, after.len() as int);
            }
            if value > (u64::MAX - digit) / 10 {
                return None;
            }
            value = value * 10 + digit;
            has_digit = true;
        } else {
            proof {
                let digits = unsigned_part(text@);
                assert(digits[count - start] == c);
            }
            return None;
        }
        started = true;
    }
    proof {
        let start: int = if signed { 1 } else { 0 };
        let digits = unsigned_part(text@);
        if !started {
            assert(text@.len() == 0);
        }
        assert(digits =~= text@.subrange(start, text@.len() as int));
    }
    if has_digit {
        Some(value)
    } else {
        None
    }
}

impl DiscordBot {
    /// A bot with exactly this configuration.
    pub fn new(details: BotDetails) -> (bot: DiscordBot)
        ensures
            bot@ == details@,
    {
        DiscordBot {
            token: details.token,
            channel: details.channel,
            secret: details.secret,
            name: details.name,
            botname: details.botname,
        }
    }

    /// The token to log in with.
    pub fn token(&self) -> (token: &String)
        ensures
            token@ == self@.token,
    {
        &self.token
    }

    /// The bridged channel, where the configuration names one.
    pub fn target_channel(&self) -> (id: Option<u64>)
        ensures
            id == channel_id(self@.channel),
    {
        parse_channel(self.channel.as_str())
    }

    /// The loop that will keep this bot on the chat platform, not yet
    /// connected. There is none where the configured channel is no channel
    /// identifier.
    pub fn event_loop(&self) -> (chat: Option<ChatEventLoop>)
        ensures
            match chat {
                Some(chat) => channel_id(self@.channel) is Some && chat@ == (LoopView {
                    botname: self@.botname,
                    name: self@.name,
                    secret: self@.secret,
                    channel: channel_id(self@.channel).unwrap(),
                    session: ChatSession::Connecting,
                }),
                None => channel_id(self@.channel) is None,
            },
    {
        match self.target_channel() {
            Some(channel) => Some(
                ChatEventLoop::new(
                    self.botname.clone(),
                    self.name.clone(),
                    self.secret.clone(),
                    channel,
                ),
            ),
            None => None,
        }
    }

    /// The worker that will relay the hub's texts to the bridged channel.
    /// There is none where the configured channel is no channel identifier.
    pub fn relay_worker(&self) -> (worker: Option<OutboundRelayWorker>)
        ensures
            match worker {
                Some(worker) => channel_id(self@.channel) == Some(worker.target()),
                None => channel_id(self@.channel) is None,
            },
    {
        match self.target_channel() {
            Some(channel) => Some(OutboundRelayWorker::new(channel)),
            None => None,
        }
    }
}

} // verus!

//! Streaming sessions: the listeners behind `SUBSCRIBE` and `MONITOR`, how
//! they are started and how they are cancelled.

use vstd::prelude::*;
use crate::command::{build3, cmd_args, text_args};
use crate::state::{PubsubItem, PubsubManager};
use crate::utils::{is_token, random_str};

verus! {

/// The kind of a session that listens to channels.
pub const KIND_PUBSUB: &'static str = "pubsub";

/// The kind of a session that watches the commands of a server.
pub const KIND_MONITOR: &'static str = "monitor";

/// The name that a monitoring listener gives its connection.
pub const MONITOR_NAME: &'static str = "monitor";

/// The directive that turns a connection into a monitor.
pub const MONITOR_DIRECTIVE: &'static str = "monitor";

/// The length of the tokens of sessions.
pub const TOKEN_LEN: usize = 32;

/// Where a listener stands.
#[derive(Clone, Copy, Debug, PartialEq, Eq, Structural)]
pub enum Stage {
    /// Its transport is being opened.
    Connecting,
    /// The channel at this index is being subscribed to.
    Subscribing(usize),
    /// Its connection is being named.
    Naming,
    /// The monitor directive is being sent.
    Starting,
    /// It waits for the next message or for its cancellation.
    Reading,
    /// A message is being handed on.
    Emitting,
    /// It has ended.
    Stopped,
}

/// What happened to a listener.
#[derive(Debug, PartialEq, Eq)]
pub enum Event {
    /// What the listener asked for was done.
    Done,
    /// What the listener asked for failed; holds the cause.
    Failed(String),
    /// A message came in on a channel.
    Message { channel: String, payload: String },
    /// A notification of a command came in.
    Notice(String),
    /// The session was cancelled. Where a cancellation is pending when
    /// something else happens as well, this is the event to report.
    Cancelled,
}

/// What a listener asks its driver to do next.
#[derive(Debug, PartialEq, Eq)]
pub enum Action {
    /// Open the listener's own transport.
    Connect,
    /// Subscribe to this channel.
    Subscribe(String),
    /// Give the connection the name of a monitor.
    SetName,
    /// Send the monitor directive.
    Start,
    /// Wait for what comes first: the next message, or the cancellation.
    Read,
    /// Hand a message to the presentation sink, under the session's token.
    Emit { event: String, channel: String, payload: String },
    /// Log a notification.
    Log(String),
    /// Close the transport; the listener has ended.
    Stop,
}

/// One background listener.
#[derive(Debug, PartialEq, Eq)]
pub struct Listener {
    /// The token of the listener's session.
    pub token: String,
    /// The channels to subscribe to.
    pub channels: Vec<String>,
    /// Where the listener stands.
    pub stage: Stage,
}

/// Where a listener goes when the channels before index `i` are dealt with:
/// to the subscription of channel `i`, or to reading when there is no such
/// channel.
pub open spec fn enter(channels: Seq<String>, i: int) -> (Stage, Action) {
    if 0 <= i < channels.len() && i <= usize::MAX {
        (Stage::Subscribing(i as usize), Action::Subscribe(channels[i]))
    } else {
        (Stage::Reading, Action::Read)
    }
}

/// How a listener reacts to an event: the stage it goes to and what it asks
/// for next.
///
/// A cancellation ends it wherever it stands. While it connects or sends the
/// monitor directive, a failure ends it. The naming of its connection and
/// the subscription to a channel are attempts: whether they fail or not, it
/// goes on. While it reads, a message is handed on, a notification is
/// logged, a failure ends it, and anything else makes it read again. After
/// handing on it reads again. Once it has ended it stays so.
pub open spec fn react(listener: Listener, event: Event) -> (Stage, Action) {
    if event is Cancelled || listener.stage is Stopped {
        (Stage::Stopped, Action::Stop)
    } else {
        match listener.stage {
            Stage::Connecting => if event is Failed {
                (Stage::Stopped, Action::Stop)
            } else {
                enter(listener.channels@, 0)
            },
            Stage::Subscribing(i) => enter(listener.channels@, i + 1),
            Stage::Naming => (Stage::Starting, Action::Start),
            Stage::Starting => if event is Failed {
                (Stage::Stopped, Action::Stop)
            } else {
                (Stage::Reading, Action::Read)
            },
            Stage::Reading => match event {
                Event::Message { channel, payload } => (
                    Stage::Emitting,
                    Action::Emit { event: listener.token, channel: channel, payload: payload },
                ),
                Event::Notice(text) => (Stage::Emitting, Action::Log(text)),
                Event::Failed(_) => (Stage::Stopped, Action::Stop),
                _ => (Stage::Reading, Action::Read),
            },
            _ => (Stage::Reading, Action::Read),
        }
    }
}

impl Listener {
    /// What the listener asks for first.
    pub open spec fn first(self) -> Action {
        match self.stage {
            Stage::Connecting => Action::Connect,
            Stage::Naming => Action::SetName,
            Stage::Stopped => Action::Stop,
            _ => Action::Read,
        }
    }

    /// Says what the listener asks for first.
    pub fn begin(&self) -> (action: Action)
        ensures
            action == self.first(),
    {
        match self.stage {
            Stage::Connecting => Action::Connect,
            Stage::Naming => Action::SetName,
            Stage::Stopped => Action::Stop,
            _ => Action::Read,
        }
    }

    /// Where the listener goes when the channels before index `i` are dealt
    /// with.
    fn enter(&self, i: usize) -> (next: (Stage, Action))
        ensures
            next == enter(self.channels@, i as int),
    {
        if i < self.channels.len() {
            (Stage::Subscribing(i), Action::Subscribe(self.channels[i].clone()))
        } else {
            (Stage::Reading, Action::Read)
        }
    }

    /// Takes in an event and says what to do next. When the listener ends,
    /// its session leaves the registry.
    pub fn step(&mut self, sessions: &mut PubsubManager, event: Event) -> (action: Action)
        ensures
            (final(self).stage, action) == react(*old(self), event),
            final(self).token == old(self).token,
            final(self).channels == old(self).channels,
            final(sessions)@ == if action is Stop {
                old(sessions)@.remove(old(self).token@)
            } else {
                old(sessions)@
            },
    {
        let stopped = match self.stage {
            Stage::Stopped => true,
            _ => false,
        };
        let cancelled = match &event {
            Event::Cancelled => true,
            _ => false,
        };
        let (stage, action) = if cancelled || stopped {
            (Stage::Stopped, Action::Stop)
        } else {
            match self.stage {
                Stage::Connecting => match event {
                    Event::Failed(_) => (Stage::Stopped, Action::Stop),
                    _ => self.enter(0),
                },
                Stage::Subscribing(i) => if i < usize::MAX {
                    self.enter(i + 1)
                } else {
                    (Stage::Reading, Action::Read)
                },
                Stage::Naming => (Stage::Starting, Action::Start),
                Stage::Starting => match event {
                    Event::Failed(_) => (Stage::Stopped, Action::Stop),
                    _ => (Stage::Reading, Action::Read),
                },
                Stage::Reading => match event {
                    Event::Message { channel, payload } => (
                        Stage::Emitting,
                        Action::Emit {
                            event: self.token.clone(),
                            channel: channel,
                            payload: payload,
                        },
                    ),
                    Event::Notice(text) => (Stage::Emitting, Action::Log(text)),
                    Event::Failed(_) => (Stage::Stopped, Action::Stop),
                    _ => (Stage::Reading, Action::Read),
                },
                _ => (Stage::Reading, Action::Read),
            }
        };
        self.stage = stage;
        match action {
            Action::Stop => {
                sessions.close(self.token.as_str());
            },
            _ => {},
        }
        action
    }
}

/// Whether a session is the one that a listener of the given kind starts
/// with: it holds the sender and the token, and says where the listener is
/// connected and when it started.
pub open spec fn opens(
    item: PubsubItem,
    tx: tokio::sync::oneshot::Sender<()>,
    token: String,
    kind: Seq<char>,
    host: String,
    proxy: Option<String>,
    created_at: String,
) -> bool {
    &&& item.tx == tx
    &&& item.name == token
    &&& item.host == host
    &&& item.types@ == kind
    &&& item.proxy == proxy
    &&& item.created_at == created_at
}

/// Starts a session that listens to channels, under the given token: the
/// session is registered before its listener does anything, so that it can
/// be cancelled from the start.
pub fn subscribe_as(
    token: String,
    sessions: &mut PubsubManager,
    tx: tokio::sync::oneshot::Sender<()>,
    channels: Vec<String>,
    host: String,
    proxy: Option<String>,
    created_at: String,
) -> (listener: Listener)
    ensures
        listener.token == token,
        listener.channels == channels,
        listener.stage == Stage::Connecting,
        final(sessions)@.contains_key(token@),
        opens(final(sessions)@[token@], tx, token, KIND_PUBSUB@, host, proxy, created_at),
        final(sessions)@ == old(sessions)@.insert(token@, final(sessions)@[token@]),
{
    let item = PubsubItem::new(
        tx,
        token.clone(),
        host,
        KIND_PUBSUB.to_string(),
        proxy,
        created_at,
    );
    sessions.add(token.clone(), item);
    Listener { token: token, channels: channels, stage: Stage::Connecting }
}

/// Starts a session that listens to channels, under a fresh random token.
pub fn subscribe(
    sessions: &mut PubsubManager,
    tx: tokio::sync::oneshot::Sender<()>,
    channels: Vec<String>,
    host: String,
    proxy: Option<String>,
    created_at: String,
) -> (listener: Listener)
    ensures
        is_token(listener.token@, TOKEN_LEN as nat),
        listener.channels == channels,
        listener.stage == Stage::Connecting,
        final(sessions)@.contains_key(listener.token@),
        opens(
            final(sessions)@[listener.token@],
            tx,
            listener.token,
            KIND_PUBSUB@,
            host,
            proxy,
            created_at,
        ),
        final(sessions)@ == old(sessions)@.insert(
            listener.token@,
            final(sessions)@[listener.token@],
        ),
{
    subscribe_as(random_str(TOKEN_LEN), sessions, tx, channels, host, proxy, created_at)
}

/// Starts a session that watches the commands of a server, under the given
/// token. The listener's transport stands already; it begins by naming its
/// connection.
pub fn monitor_as(
    token: String,
    sessions: &mut PubsubManager,
    tx: tokio::sync::oneshot::Sender<()>,
    host: String,
    proxy: Option<String>,
    created_at: String,
) -> (listener: Listener)
    ensures
        listener.token == token,
        listener.channels@.len() == 0,
        listener.stage == Stage::Naming,
        final(sessions)@.contains_key(token@),
        opens(final(sessions)@[token@], tx, token, KIND_MONITOR@, host, proxy, created_at),
        final(sessions)@ == old(sessions)@.insert(token@, final(sessions)@[token@]),
{
    let item = PubsubItem::new(
        tx,
        token.clone(),
        host,
        KIND_MONITOR.to_string(),
        proxy,
        created_at,
    );
    sessions.add(token.clone(), item);
    Listener { token: token, channels: Vec::new(), stage: Stage::Naming }
}

/// Starts a session that watches the commands of a server, under a fresh
/// random token.
pub fn monitor(
    sessions: &mut PubsubManager,
    tx: tokio::sync::oneshot::Sender<()>,
    host: String,
    proxy: Option<String>,
    created_at: String,
) -> (listener: Listener)
    ensures
        is_token(listener.token@, TOKEN_LEN as nat),
        listener.channels@.len() == 0,
        listener.stage == Stage::Naming,
        final(sessions)@.contains_key(listener.token@),
        opens(
            final(sessions)@[listener.token@],
            tx,
            listener.token,
            KIND_MONITOR@,
            host,
            proxy,
            created_at,
        ),
        final(sessions)@ == old(sessions)@.insert(
            listener.token@,
            final(sessions)@[listener.token@],
        ),
{
    monitor_as(random_str(TOKEN_LEN), sessions, tx, host, proxy, created_at)
}

/// Cancels the session under a token. Succeeds whether or not a session
/// stands under the token.
pub fn cancel(sessions: &mut PubsubManager, name: &str) -> (answer: String)
    ensures
        answer@ == "OK"@,
        final(sessions)@ == old(sessions)@.remove(name@),
{
    sessions.close(name);
    "OK".to_string()
}

/// The arguments of the command that publishes a value on a channel.
pub open spec fn publish_args(channel: Seq<char>, value: Seq<char>) -> Seq<Option<Seq<u8>>> {
    text_args(seq!["publish"@, channel, value])
}

/// The command that publishes a value on a channel.
pub fn publish(channel: &str, value: &str) -> (cmd: redis::Cmd)
    ensures
        cmd_args(cmd) == publish_args(channel@, value@),
{
    build3("publish", channel, value)
}

/// A cancellation ends a listener, wherever it stands and whatever else
/// happened, and a listener that has ended stays so.
pub proof fn lemma_cancel_stops(listener: Listener, event: Event)
    ensures
        react(listener, Event::Cancelled) == (Stage::Stopped, Action::Stop),
        listener.stage is Stopped ==> react(listener, event) == (Stage::Stopped, Action::Stop),
{
}

/// A channel that cannot be subscribed to does not end the listener: it
/// goes on as if the subscription had been made.
pub proof fn lemma_subscription_failures_skipped(listener: Listener, cause: String)
    requires
        listener.stage is Subscribing,
    ensures
        react(listener, Event::Failed(cause)) == react(listener, Event::Done),
        !(react(listener, Event::Failed(cause)).1 is Stop),
{
}

/// A read that fails ends the listener.
pub proof fn lemma_read_failure_stops(listener: Listener, cause: String)
    requires
        listener.stage is Reading,
    ensures
        react(listener, Event::Failed(cause)) == (Stage::Stopped, Action::Stop),
{
}

} // verus!

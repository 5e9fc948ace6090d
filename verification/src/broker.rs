//! The link to the broker: one connection, kept subscribed to the command
//! topic, re-established whenever it is lost.
//!
//! The link performs nothing itself. Each of its operations answers with the
//! commands that whoever drives it is to perform, in order. The last command
//! of an answer is the one whose outcome the link is told next.

use vstd::prelude::*;
use vstd::string::StringExecFns;
use crate::config::{COMMAND_TOPIC, KEEP_ALIVE_SECS, RESPONSE_TOPIC, RETRY_DELAY_MS};
use crate::message::{ConnectOptions, Message, MessageView, Qos, Subscription, SubscriptionView};

verus! {

/// What is known of the connection to the broker.
#[derive(Clone, Copy, Debug, PartialEq, Eq, Structural)]
pub enum ConnectionState {
    Disconnected,
    Connecting,
    Connected,
}

/// Why the link gave up for good.
#[derive(Clone, Copy, Debug, PartialEq, Eq, Structural)]
pub enum LinkError {
    /// The first connection could not be established.
    Connect,
    /// The subscription request failed before the broker answered it.
    Subscribe,
    /// The broker answered, but its answer grants no subscription.
    BadResponse,
}

/// Where the link stands in its life.
#[derive(Clone, Copy, Debug, PartialEq, Eq, Structural)]
pub enum LinkPhase {
    /// Nothing was asked of the broker yet.
    Idle,
    /// The first connection attempt is under way.
    Connecting,
    /// The connection stands and the subscription request is under way.
    Subscribing,
    /// Connected and subscribed: the stream of messages is read.
    Ready,
    /// The connection was lost; attempts to restore it are under way.
    Reconnecting,
    /// The link gave up.
    Failed(LinkError),
}

/// What came of a subscription request.
#[derive(Clone, Copy, Debug, PartialEq, Eq, Structural)]
pub enum SubscribeReply {
    /// The request failed before any answer arrived.
    Failed,
    /// The broker answered. The answer holds the granted level if it
    /// acknowledges a subscription, and nothing otherwise.
    Answered(Option<i32>),
}

/// One thing that the driver of the broker side is asked to do.
#[derive(Clone, Debug, PartialEq, Eq)]
pub enum BrokerCommand {
    /// Open the first connection. The outcome is reported.
    Connect(ConnectOptions),
    /// Open the connection again, as it was opened before. The outcome is
    /// reported.
    Reconnect,
    /// Request the subscription. The broker's reply is reported.
    Subscribe(Subscription),
    /// Let this many milliseconds pass.
    Wait(u64),
    /// Take the next element of the message stream. The element is reported.
    Poll,
    /// Send these bytes over the local channel's current connection, as one
    /// more user of that connection; whether that worked is of no interest.
    Send(Vec<u8>),
    /// Close the connection; whether that worked is of no interest.
    Disconnect,
    /// Stop: the bridge cannot do its work.
    Abort(LinkError),
}

/// Mathematical content of a [`BrokerCommand`].
pub enum BrokerCommandView {
    Connect(ConnectOptions),
    Reconnect,
    Subscribe(SubscriptionView),
    Wait(u64),
    Poll,
    Send(Seq<u8>),
    Disconnect,
    Abort(LinkError),
}

impl View for BrokerCommand {
    type V = BrokerCommandView;

    open spec fn view(&self) -> BrokerCommandView {
        match self {
            BrokerCommand::Connect(options) => BrokerCommandView::Connect(*options),
            BrokerCommand::Reconnect => BrokerCommandView::Reconnect,
            BrokerCommand::Subscribe(subscription) => BrokerCommandView::Subscribe(subscription@),
            BrokerCommand::Wait(millis) => BrokerCommandView::Wait(*millis),
            BrokerCommand::Poll => BrokerCommandView::Poll,
            BrokerCommand::Send(payload) => BrokerCommandView::Send(payload@),
            BrokerCommand::Disconnect => BrokerCommandView::Disconnect,
            BrokerCommand::Abort(error) => BrokerCommandView::Abort(*error),
        }
    }
}

/// The views of a list of commands.
pub open spec fn broker_command_views(commands: Seq<BrokerCommand>) -> Seq<BrokerCommandView> {
    commands.map_values(|c: BrokerCommand| c@)
}

/// A phase reached and the commands issued on the way.
pub struct LinkStep {
    pub phase: LinkPhase,
    pub commands: Seq<BrokerCommandView>,
}

/// The options of every connection to the broker: a keep-alive interval of
/// twenty seconds and a session that the broker does not keep.
pub open spec fn connect_options() -> ConnectOptions {
    ConnectOptions { keep_alive_secs: KEEP_ALIVE_SECS, clean_session: true }
}

/// The subscription of the bridge: the command topic, at most once.
pub open spec fn command_subscription() -> SubscriptionView {
    SubscriptionView { topic: COMMAND_TOPIC@, qos: Qos::AtMostOnce }
}

/// The message that carries a payload to the response topic.
pub open spec fn response_message(payload: Seq<u8>) -> MessageView {
    MessageView { topic: RESPONSE_TOPIC@, payload, qos: Qos::AtMostOnce }
}

/// The connection state that a phase stands for.
pub open spec fn connection_state_of(phase: LinkPhase) -> ConnectionState {
    match phase {
        LinkPhase::Idle => ConnectionState::Disconnected,
        LinkPhase::Connecting => ConnectionState::Connecting,
        LinkPhase::Subscribing => ConnectionState::Connected,
        LinkPhase::Ready => ConnectionState::Connected,
        LinkPhase::Reconnecting => ConnectionState::Connecting,
        LinkPhase::Failed(_) => ConnectionState::Disconnected,
    }
}

/// Starting the link: an idle link opens its first connection. A link that
/// was started before has no answer.
pub open spec fn link_connect(phase: LinkPhase) -> Option<LinkStep> {
    if phase == LinkPhase::Idle {
        Some(
            LinkStep {
                phase: LinkPhase::Connecting,
                commands: seq![BrokerCommandView::Connect(connect_options())],
            },
        )
    } else {
        None
    }
}

/// The outcome of a connection attempt. Success leads to the subscription
/// request, on the first connection and on every later one. Failure of the
/// first attempt ends the link; failure of a later one is followed, after the
/// retry delay, by the next attempt. A link with no attempt under way has no
/// answer.
pub open spec fn link_connect_result(phase: LinkPhase, connected: bool) -> Option<LinkStep> {
    if phase != LinkPhase::Connecting && phase != LinkPhase::Reconnecting {
        None
    } else if connected {
        Some(
            LinkStep {
                phase: LinkPhase::Subscribing,
                commands: seq![BrokerCommandView::Subscribe(command_subscription())],
            },
        )
    } else if phase == LinkPhase::Connecting {
        Some(
            LinkStep {
                phase: LinkPhase::Failed(LinkError::Connect),
                commands: seq![BrokerCommandView::Abort(LinkError::Connect)],
            },
        )
    } else {
        Some(
            LinkStep {
                phase: LinkPhase::Reconnecting,
                commands: seq![
                    BrokerCommandView::Wait(RETRY_DELAY_MS),
                    BrokerCommandView::Reconnect,
                ],
            },
        )
    }
}

/// The error that a reply to the subscription request amounts to, if any: a
/// reply grants the subscription exactly if it is an answer that holds a
/// level.
pub open spec fn reply_error(reply: SubscribeReply) -> Option<LinkError> {
    match reply {
        SubscribeReply::Failed => Some(LinkError::Subscribe),
        SubscribeReply::Answered(None) => Some(LinkError::BadResponse),
        SubscribeReply::Answered(Some(_)) => None,
    }
}

/// The reply to the subscription request. A granted subscription makes the
/// link ready, and the stream is read. Anything else closes the connection
/// and ends the link. A link with no request under way has no answer.
pub open spec fn link_subscribe_reply(phase: LinkPhase, reply: SubscribeReply) -> Option<
    LinkStep,
> {
    if phase != LinkPhase::Subscribing {
        None
    } else {
        match reply_error(reply) {
            None => Some(LinkStep { phase: LinkPhase::Ready, commands: seq![BrokerCommandView::Poll] }),
            Some(error) => Some(
                LinkStep {
                    phase: LinkPhase::Failed(error),
                    commands: seq![BrokerCommandView::Disconnect, BrokerCommandView::Abort(error)],
                },
            ),
        }
    }
}

/// The loss of the connection: a ready link starts over with an attempt to
/// connect again, at once. A link that is not ready has no answer.
pub open spec fn link_reconnect(phase: LinkPhase) -> Option<LinkStep> {
    if phase == LinkPhase::Ready {
        Some(LinkStep { phase: LinkPhase::Reconnecting, commands: seq![BrokerCommandView::Reconnect] })
    } else {
        None
    }
}

/// Whether an operation that began in phase `before` did what `expected`
/// says: with an answer, the link is in the answer's phase and hands out the
/// answer's commands; without one, the link is as it was and hands out
/// nothing.
pub open spec fn link_obeys(
    before: LinkPhase,
    expected: Option<LinkStep>,
    after: LinkPhase,
    commands: Option<Vec<BrokerCommand>>,
) -> bool {
    match expected {
        Some(step) => {
            &&& after == step.phase
            &&& commands is Some
            &&& broker_command_views(commands->0@) == step.commands
        },
        None => after == before && commands is None,
    }
}

/// The link to the broker.
#[derive(Debug)]
pub struct BrokerLink {
    phase: LinkPhase,
}

impl View for BrokerLink {
    type V = LinkPhase;

    closed spec fn view(&self) -> LinkPhase {
        self.phase
    }
}

impl BrokerLink {
    /// A link that was not started yet.
    pub fn new() -> (link: BrokerLink)
        ensures
            link@ == LinkPhase::Idle,
    {
        BrokerLink { phase: LinkPhase::Idle }
    }

    /// The phase that the link is in.
    pub fn phase(&self) -> (phase: LinkPhase)
        ensures
            phase == self@,
    {
        self.phase
    }

    /// What is known of the connection.
    pub fn connection_state(&self) -> (state: ConnectionState)
        ensures
            state == connection_state_of(self@),
    {
        match self.phase {
            LinkPhase::Idle => ConnectionState::Disconnected,
            LinkPhase::Connecting => ConnectionState::Connecting,
            LinkPhase::Subscribing => ConnectionState::Connected,
            LinkPhase::Ready => ConnectionState::Connected,
            LinkPhase::Reconnecting => ConnectionState::Connecting,
            LinkPhase::Failed(_) => ConnectionState::Disconnected,
        }
    }

    /// The options of every connection to the broker.
    pub fn options() -> (options: ConnectOptions)
        ensures
            options == connect_options(),
    {
        ConnectOptions { keep_alive_secs: KEEP_ALIVE_SECS, clean_session: true }
    }

    /// The subscription of the bridge.
    pub fn subscription() -> (subscription: Subscription)
        ensures
            subscription@ == command_subscription(),
    {
        Subscription::new(String::from_str(COMMAND_TOPIC), Qos::AtMostOnce)
    }

    /// Starts the link: see [`link_connect`].
    pub fn connect(&mut self) -> (commands: Option<Vec<BrokerCommand>>)
        ensures
            link_obeys(old(self)@, link_connect(old(self)@), final(self)@, commands),
    {
        match self.phase {
            LinkPhase::Idle => {
                self.phase = LinkPhase::Connecting;
                let mut commands: Vec<BrokerCommand> = Vec::new();
                commands.push(BrokerCommand::Connect(Self::options()));
                assert(broker_command_views(commands@) =~= link_connect(old(self)@)->0.commands);
                Some(commands)
            },
            _ => None,
        }
    }

    /// Takes the outcome of the connection attempt that was asked for last:
    /// see [`link_connect_result`].
    pub fn on_connect_result(&mut self, connected: bool) -> (commands: Option<Vec<BrokerCommand>>)
        ensures
            link_obeys(
                old(self)@,
                link_connect_result(old(self)@, connected),
                final(self)@,
                commands,
            ),
    {
        let first = match self.phase {
            LinkPhase::Connecting => true,
            LinkPhase::Reconnecting => false,
            _ => {
                return None;
            },
        };
        let ghost expected = link_connect_result(old(self)@, connected)->0.commands;
        let mut commands: Vec<BrokerCommand> = Vec::new();
        if connected {
            self.phase = LinkPhase::Subscribing;
            commands.push(BrokerCommand::Subscribe(Self::subscription()));
        } else if first {
            self.phase = LinkPhase::Failed(LinkError::Connect);
            commands.push(BrokerCommand::Abort(LinkError::Connect));
        } else {
            commands.push(BrokerCommand::Wait(RETRY_DELAY_MS));
            commands.push(BrokerCommand::Reconnect);
        }
        assert(broker_command_views(commands@) =~= expected);
        Some(commands)
    }

    /// Checks a reply to the subscription request: see [`reply_error`].
    pub fn check_reply(reply: SubscribeReply) -> (outcome: Result<(), LinkError>)
        ensures
            match reply_error(reply) {
                Some(error) => outcome == Err::<(), LinkError>(error),
                None => outcome is Ok,
            },
    {
        match reply {
            SubscribeReply::Failed => Err(LinkError::Subscribe),
            SubscribeReply::Answered(None) => Err(LinkError::BadResponse),
            SubscribeReply::Answered(Some(_)) => Ok(()),
        }
    }

    /// Takes the reply to the subscription request: see
    /// [`link_subscribe_reply`].
    pub fn on_subscribe_reply(&mut self, reply: SubscribeReply) -> (commands: Option<
        Vec<BrokerCommand>,
    >)
        ensures
            link_obeys(
                old(self)@,
                link_subscribe_reply(old(self)@, reply),
                final(self)@,
                commands,
            ),
    {
        match self.phase {
            LinkPhase::Subscribing => {},
            _ => {
                return None;
            },
        }
        let ghost expected = link_subscribe_reply(old(self)@, reply)->0.commands;
        let mut commands: Vec<BrokerCommand> = Vec::new();
        match Self::check_reply(reply) {
            Ok(_) => {
                self.phase = LinkPhase::Ready;
                commands.push(BrokerCommand::Poll);
            },
            Err(error) => {
                self.phase = LinkPhase::Failed(error);
                commands.push(BrokerCommand::Disconnect);
                commands.push(BrokerCommand::Abort(error));
            },
        }
        assert(broker_command_views(commands@) =~= expected);
        Some(commands)
    }

    /// Takes the loss of the connection: see [`link_reconnect`].
    pub fn reconnect(&mut self) -> (commands: Option<Vec<BrokerCommand>>)
        ensures
            link_obeys(old(self)@, link_reconnect(old(self)@), final(self)@, commands),
    {
        match self.phase {
            LinkPhase::Ready => {
                self.phase = LinkPhase::Reconnecting;
                let mut commands: Vec<BrokerCommand> = Vec::new();
                commands.push(BrokerCommand::Reconnect);
                assert(broker_command_views(commands@) =~= link_reconnect(old(self)@)->0.commands);
                Some(commands)
            },
            _ => None,
        }
    }

    /// Wraps a payload for the response topic. Publishing is not tied to the
    /// link's phase: the message is handed to the broker client as it is,
    /// and a message that cannot be delivered is lost.
    pub fn publish(payload: Vec<u8>) -> (message: Message)
        ensures
            message@ == response_message(payload@),
    {
        Message::new(String::from_str(RESPONSE_TOPIC), payload, Qos::AtMostOnce)
    }
}

} // verus!

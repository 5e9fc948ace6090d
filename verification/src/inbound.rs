//! The forwarder from the broker to the local channel.
//!
//! It starts the link, reads the link's stream of messages and hands every
//! command that arrives to the local channel, unchanged. When the stream
//! reports that the connection is lost, it has the link restored and reads
//! on.

use vstd::prelude::*;
use vstd::string::StringExecFns;
use crate::broker::{
    broker_command_views, link_connect, link_connect_result, link_obeys, link_reconnect,
    link_subscribe_reply, BrokerCommand, BrokerCommandView, BrokerLink, LinkPhase, LinkStep,
    SubscribeReply,
};
use crate::config::COMMAND_TOPIC;
use crate::message::{Message, MessageView};

verus! {

/// What the driver of the broker side reports back.
#[derive(Clone, Debug, PartialEq, Eq)]
pub enum BrokerEvent {
    /// The connection attempt succeeded.
    Connected,
    /// The connection attempt failed.
    ConnectFailed,
    /// The subscription request ended with this reply.
    Subscribed(SubscribeReply),
    /// The stream of messages gave its next element: a message, or nothing,
    /// which stands for the loss of the connection.
    Element(Option<Message>),
}

/// Mathematical content of a [`BrokerEvent`].
pub enum BrokerEventView {
    Connected,
    ConnectFailed,
    Subscribed(SubscribeReply),
    Element(Option<MessageView>),
}

impl View for BrokerEvent {
    type V = BrokerEventView;

    open spec fn view(&self) -> BrokerEventView {
        match self {
            BrokerEvent::Connected => BrokerEventView::Connected,
            BrokerEvent::ConnectFailed => BrokerEventView::ConnectFailed,
            BrokerEvent::Subscribed(reply) => BrokerEventView::Subscribed(*reply),
            BrokerEvent::Element(Some(message)) => BrokerEventView::Element(Some(message@)),
            BrokerEvent::Element(None) => BrokerEventView::Element(None),
        }
    }
}

/// What is done with a message from the stream: one on the command topic has
/// its payload sent into the local channel, any other is passed over. Either
/// way the stream is read on.
pub open spec fn dispatch_of(message: MessageView) -> Seq<BrokerCommandView> {
    if message.topic == COMMAND_TOPIC@ {
        seq![BrokerCommandView::Send(message.payload), BrokerCommandView::Poll]
    } else {
        seq![BrokerCommandView::Poll]
    }
}

/// The forwarder's answer to an event in a phase of its link. Outcomes of
/// connection attempts and replies to the subscription request go to the
/// link. An element of the stream is taken only while the link is ready: a
/// message is dispatched, and the loss of the connection makes the link
/// connect again. An event that the phase does not wait for has no answer.
pub open spec fn inbound_next(phase: LinkPhase, event: BrokerEventView) -> Option<LinkStep> {
    match event {
        BrokerEventView::Connected => link_connect_result(phase, true),
        BrokerEventView::ConnectFailed => link_connect_result(phase, false),
        BrokerEventView::Subscribed(reply) => link_subscribe_reply(phase, reply),
        BrokerEventView::Element(Some(message)) => if phase == LinkPhase::Ready {
            Some(LinkStep { phase: LinkPhase::Ready, commands: dispatch_of(message) })
        } else {
            None
        },
        BrokerEventView::Element(None) => link_reconnect(phase),
    }
}

/// Whether the outcome of a command is reported back to the forwarder.
pub open spec fn broker_reports(command: BrokerCommandView) -> bool {
    ||| command is Connect
    ||| command is Reconnect
    ||| command is Subscribe
    ||| command is Poll
}

/// Whether an event is an outcome of a command: a connection attempt ends in
/// success or in failure, a subscription request in a reply, and taking from
/// the stream in an element. The other commands have no outcome.
pub open spec fn broker_outcome(command: BrokerCommandView, event: BrokerEventView) -> bool {
    match command {
        BrokerCommandView::Connect(_) => event is Connected || event is ConnectFailed,
        BrokerCommandView::Reconnect => event is Connected || event is ConnectFailed,
        BrokerCommandView::Subscribe(_) => event is Subscribed,
        BrokerCommandView::Poll => event is Element,
        _ => false,
    }
}

/// The forwarder from the broker to the local channel, with the link that it
/// reads from.
#[derive(Debug)]
pub struct InboundForwarder {
    link: BrokerLink,
}

impl View for InboundForwarder {
    type V = LinkPhase;

    closed spec fn view(&self) -> LinkPhase {
        self.link@
    }
}

impl InboundForwarder {
    /// A forwarder whose link was not started yet.
    pub fn new() -> (forwarder: InboundForwarder)
        ensures
            forwarder@ == LinkPhase::Idle,
    {
        InboundForwarder { link: BrokerLink::new() }
    }

    /// The link that the forwarder reads from.
    pub fn link(&self) -> (link: &BrokerLink)
        ensures
            link@ == self@,
    {
        &self.link
    }

    /// Starts the forwarder by starting its link.
    pub fn start(&mut self) -> (commands: Option<Vec<BrokerCommand>>)
        ensures
            link_obeys(old(self)@, link_connect(old(self)@), final(self)@, commands),
    {
        self.link.connect()
    }

    /// Decides what is done with a message from the stream: see
    /// [`dispatch_of`].
    pub fn dispatch(message: Message) -> (commands: Vec<BrokerCommand>)
        ensures
            broker_command_views(commands@) == dispatch_of(message@),
    {
        let (topic, payload, _) = message.into_parts();
        let mut commands: Vec<BrokerCommand> = Vec::new();
        if topic == String::from_str(COMMAND_TOPIC) {
            commands.push(BrokerCommand::Send(payload));
        }
        commands.push(BrokerCommand::Poll);
        assert(broker_command_views(commands@) =~= dispatch_of(message@));
        commands
    }

    /// Takes the outcome of the command that was handed out last and answers
    /// with the commands to perform next: see [`inbound_next`].
    pub fn step(&mut self, event: BrokerEvent) -> (commands: Option<Vec<BrokerCommand>>)
        ensures
            link_obeys(old(self)@, inbound_next(old(self)@, event@), final(self)@, commands),
    {
        match event {
            BrokerEvent::Connected => self.link.on_connect_result(true),
            BrokerEvent::ConnectFailed => self.link.on_connect_result(false),
            BrokerEvent::Subscribed(reply) => self.link.on_subscribe_reply(reply),
            BrokerEvent::Element(Some(message)) => match self.link.phase() {
                LinkPhase::Ready => Some(Self::dispatch(message)),
                _ => None,
            },
            BrokerEvent::Element(None) => self.link.reconnect(),
        }
    }
}

} // verus!

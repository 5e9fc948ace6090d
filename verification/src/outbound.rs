//! The forwarder from the local channel to the broker.
//!
//! It starts the handle, reads from it and publishes every datagram that
//! arrives, unchanged. An empty read means that the agent closed the
//! connection: nothing is published, and the handle gets a new connection
//! before the forwarder reads again.

use vstd::prelude::*;
use crate::broker::{response_message, BrokerLink};
use crate::channel::{
    channel_command_views, channel_connect, channel_connect_result, channel_obeys,
    channel_reconnect, ChannelCommand, ChannelCommandView, ChannelPhase, ChannelStep, ChannelView,
    LocalChannelHandle,
};
use crate::config::READ_BUFFER_SIZE;

verus! {

/// What the driver of the local channel side reports back.
#[derive(Clone, Debug, PartialEq, Eq)]
pub enum ChannelEvent {
    /// The connection attempt succeeded.
    Connected,
    /// The connection attempt failed.
    ConnectFailed,
    /// A read from the current connection returned these bytes.
    Read(Vec<u8>),
}

/// Mathematical content of a [`ChannelEvent`].
pub enum ChannelEventView {
    Connected,
    ConnectFailed,
    Read(Seq<u8>),
}

impl View for ChannelEvent {
    type V = ChannelEventView;

    open spec fn view(&self) -> ChannelEventView {
        match self {
            ChannelEvent::Connected => ChannelEventView::Connected,
            ChannelEvent::ConnectFailed => ChannelEventView::ConnectFailed,
            ChannelEvent::Read(bytes) => ChannelEventView::Read(bytes@),
        }
    }
}

/// What is done with a datagram that was read: it is published on the
/// response topic as it is, whatever its length, and the next read follows.
pub open spec fn relay_of(bytes: Seq<u8>) -> Seq<ChannelCommandView> {
    seq![
        ChannelCommandView::Publish(response_message(bytes)),
        ChannelCommandView::Receive(READ_BUFFER_SIZE),
    ]
}

/// The forwarder's answer to an event. Outcomes of connection attempts go to
/// the handle. A read is taken only while the handle is connected: an empty
/// one makes the handle open a new connection, any other is relayed. An event that
/// the phase does not wait for has no answer.
pub open spec fn outbound_next(handle: ChannelView, event: ChannelEventView) -> Option<
    ChannelStep,
> {
    match event {
        ChannelEventView::Connected => channel_connect_result(handle, true),
        ChannelEventView::ConnectFailed => channel_connect_result(handle, false),
        ChannelEventView::Read(bytes) => if bytes.len() == 0 {
            channel_reconnect(handle)
        } else if handle.phase == ChannelPhase::Connected {
            Some(ChannelStep { phase: ChannelPhase::Connected, commands: relay_of(bytes) })
        } else {
            None
        },
    }
}

/// Whether the outcome of a command is reported back to the forwarder.
pub open spec fn channel_reports(command: ChannelCommandView) -> bool {
    command is Connect || command is Receive
}

/// Whether an event is an outcome of a command: a connection attempt ends in
/// success or in failure, and a read in the bytes read. The other commands
/// have no outcome.
pub open spec fn channel_outcome(command: ChannelCommandView, event: ChannelEventView) -> bool {
    match command {
        ChannelCommandView::Connect(_) => event is Connected || event is ConnectFailed,
        ChannelCommandView::Receive(_) => event is Read,
        _ => false,
    }
}

/// The forwarder from the local channel to the broker, with the handle that
/// it reads from.
#[derive(Debug)]
pub struct OutboundForwarder {
    handle: LocalChannelHandle,
}

impl View for OutboundForwarder {
    type V = ChannelView;

    closed spec fn view(&self) -> ChannelView {
        self.handle@
    }
}

impl OutboundForwarder {
    /// A forwarder for the channel at `path`, not started yet.
    pub fn new(path: String) -> (forwarder: OutboundForwarder)
        ensures
            forwarder@ == (ChannelView { phase: ChannelPhase::Idle, path: path@ }),
    {
        OutboundForwarder { handle: LocalChannelHandle::new(path) }
    }

    /// The handle that the forwarder reads from.
    pub fn handle(&self) -> (handle: &LocalChannelHandle)
        ensures
            handle@ == self@,
    {
        &self.handle
    }

    /// Starts the forwarder by starting its handle.
    pub fn start(&mut self) -> (commands: Option<Vec<ChannelCommand>>)
        ensures
            channel_obeys(old(self)@, channel_connect(old(self)@), final(self)@, commands),
    {
        self.handle.connect()
    }

    /// Decides what is done with a datagram that was read: see [`relay_of`].
    pub fn relay(bytes: Vec<u8>) -> (commands: Vec<ChannelCommand>)
        ensures
            channel_command_views(commands@) == relay_of(bytes@),
    {
        let mut commands: Vec<ChannelCommand> = Vec::new();
        commands.push(ChannelCommand::Publish(BrokerLink::publish(bytes)));
        commands.push(ChannelCommand::Receive(READ_BUFFER_SIZE));
        assert(channel_command_views(commands@) =~= relay_of(bytes@));
        commands
    }

    /// Takes the outcome of the command that was handed out last and answers
    /// with the commands to perform next: see [`outbound_next`].
    pub fn step(&mut self, event: ChannelEvent) -> (commands: Option<Vec<ChannelCommand>>)
        ensures
            channel_obeys(old(self)@, outbound_next(old(self)@, event@), final(self)@, commands),
    {
        match event {
            ChannelEvent::Connected => self.handle.on_connect_result(true),
            ChannelEvent::ConnectFailed => self.handle.on_connect_result(false),
            ChannelEvent::Read(bytes) => {
                if bytes.len() == 0 {
                    self.handle.reconnect()
                } else {
                    match self.handle.phase() {
                        ChannelPhase::Connected => Some(Self::relay(bytes)),
                        _ => None,
                    }
                }
            },
        }
    }
}

} // verus!

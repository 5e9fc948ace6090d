//! The handle to the local channel: one connection to the agent at a time,
//! replaced by a new one whenever the agent closes it.
//!
//! Like the link to the broker, the handle performs nothing itself and
//! answers with commands. A new connection is first told who the bridge is,
//! and only then put in the place of the old one, where both forwarders find
//! it. The broker side of the bridge is started when the first connection is
//! in place, not before.

use vstd::prelude::*;
use crate::bootstrap::{payload_views, registration_messages, registration_payloads};
use crate::config::{READ_BUFFER_SIZE, RETRY_DELAY_MS};
use crate::message::{Message, MessageView};

verus! {

/// Where the handle stands in its life.
#[derive(Clone, Copy, Debug, PartialEq, Eq, Structural)]
pub enum ChannelPhase {
    /// No connection was asked for yet.
    Idle,
    /// There has been no connection yet; attempts to open the first one are
    /// under way.
    Connecting,
    /// The connection stands and is read.
    Connected,
    /// The agent closed the connection; attempts to open a new one are under
    /// way.
    Reconnecting,
}

/// One thing that the driver of the local channel side is asked to do.
#[derive(Clone, Debug, PartialEq, Eq)]
pub enum ChannelCommand {
    /// Open a new connection to the channel at this path. The outcome is
    /// reported.
    Connect(String),
    /// Let this many milliseconds pass.
    Wait(u64),
    /// Send these bytes over the new connection; whether that worked is of
    /// no interest.
    Register(Vec<u8>),
    /// Put the new connection in the place of the current one, alone: after
    /// every send and read on the current one has ended, and before another
    /// begins.
    Install,
    /// Start the broker side of the bridge, which sends over the connection
    /// that is in place.
    StartInbound,
    /// Read the next datagram from the current connection, up to this many
    /// bytes. The bytes read are reported.
    Receive(usize),
    /// Hand this message to the broker; whether that worked is of no
    /// interest.
    Publish(Message),
}

/// Mathematical content of a [`ChannelCommand`].
pub enum ChannelCommandView {
    Connect(Seq<char>),
    Wait(u64),
    Register(Seq<u8>),
    Install,
    StartInbound,
    Receive(usize),
    Publish(MessageView),
}

impl View for ChannelCommand {
    type V = ChannelCommandView;

    open spec fn view(&self) -> ChannelCommandView {
        match self {
            ChannelCommand::Connect(path) => ChannelCommandView::Connect(path@),
            ChannelCommand::Wait(millis) => ChannelCommandView::Wait(*millis),
            ChannelCommand::Register(payload) => ChannelCommandView::Register(payload@),
            ChannelCommand::Install => ChannelCommandView::Install,
            ChannelCommand::StartInbound => ChannelCommandView::StartInbound,
            ChannelCommand::Receive(size) => ChannelCommandView::Receive(*size),
            ChannelCommand::Publish(message) => ChannelCommandView::Publish(message@),
        }
    }
}

/// The views of a list of commands.
pub open spec fn channel_command_views(commands: Seq<ChannelCommand>) -> Seq<ChannelCommandView> {
    commands.map_values(|c: ChannelCommand| c@)
}

/// A phase reached and the commands issued on the way.
pub struct ChannelStep {
    pub phase: ChannelPhase,
    pub commands: Seq<ChannelCommandView>,
}

/// Mathematical content of a [`LocalChannelHandle`].
pub struct ChannelView {
    pub phase: ChannelPhase,
    pub path: Seq<char>,
}

/// The commands that send the given payloads over a new connection, one
/// command for each payload, in the same order.
pub open spec fn register_all(payloads: Seq<Seq<u8>>) -> Seq<ChannelCommandView> {
    payloads.map_values(|p: Seq<u8>| ChannelCommandView::Register(p))
}

/// What follows a successful connection attempt: the bridge introduces
/// itself with its registration messages, the new connection is put in
/// place, and reading begins. When the connection is the first one, the
/// broker side is started once it is in place.
pub open spec fn welcome(first: bool) -> Seq<ChannelCommandView> {
    register_all(registration_payloads()) + if first {
        seq![
            ChannelCommandView::Install,
            ChannelCommandView::StartInbound,
            ChannelCommandView::Receive(READ_BUFFER_SIZE),
        ]
    } else {
        seq![ChannelCommandView::Install, ChannelCommandView::Receive(READ_BUFFER_SIZE)]
    }
}

/// Whether a handle in this phase has had no connection yet.
pub open spec fn unconnected(phase: ChannelPhase) -> bool {
    phase == ChannelPhase::Idle || phase == ChannelPhase::Connecting
}

/// Whether attempts to connect are under way in a phase.
pub open spec fn attempting(phase: ChannelPhase) -> bool {
    phase == ChannelPhase::Connecting || phase == ChannelPhase::Reconnecting
}

/// Starting the handle: an idle handle asks for its first connection. A
/// handle that was started before has no answer.
pub open spec fn channel_connect(handle: ChannelView) -> Option<ChannelStep> {
    if handle.phase == ChannelPhase::Idle {
        Some(
            ChannelStep {
                phase: ChannelPhase::Connecting,
                commands: seq![ChannelCommandView::Connect(handle.path)],
            },
        )
    } else {
        None
    }
}

/// The outcome of a connection attempt. Success is followed by the welcome
/// of the new connection. Failure is followed, after the retry delay, by the
/// next attempt, however many have failed. A handle with no attempt under way
/// has no answer.
pub open spec fn channel_connect_result(handle: ChannelView, connected: bool) -> Option<
    ChannelStep,
> {
    if !attempting(handle.phase) {
        None
    } else if connected {
        Some(
            ChannelStep {
                phase: ChannelPhase::Connected,
                commands: welcome(handle.phase == ChannelPhase::Connecting),
            },
        )
    } else {
        Some(
            ChannelStep {
                phase: handle.phase,
                commands: seq![
                    ChannelCommandView::Wait(RETRY_DELAY_MS),
                    ChannelCommandView::Connect(handle.path),
                ],
            },
        )
    }
}

/// The end of the connection: a connected handle asks for a new connection
/// to the same path, at once. A handle that is not connected has no answer.
pub open spec fn channel_reconnect(handle: ChannelView) -> Option<ChannelStep> {
    if handle.phase == ChannelPhase::Connected {
        Some(
            ChannelStep {
                phase: ChannelPhase::Reconnecting,
                commands: seq![ChannelCommandView::Connect(handle.path)],
            },
        )
    } else {
        None
    }
}

/// Whether an operation on a handle that was `before` did what `expected`
/// says: with an answer, the handle is in the answer's phase and hands out
/// the answer's commands; without one, the handle is as it was and hands out
/// nothing. The path never changes.
pub open spec fn channel_obeys(
    before: ChannelView,
    expected: Option<ChannelStep>,
    after: ChannelView,
    commands: Option<Vec<ChannelCommand>>,
) -> bool {
    &&& after.path == before.path
    &&& match expected {
        Some(step) => {
            &&& after.phase == step.phase
            &&& commands is Some
            &&& channel_command_views(commands->0@) == step.commands
        },
        None => after.phase == before.phase && commands is None,
    }
}

/// The handle to the local channel.
#[derive(Debug)]
pub struct LocalChannelHandle {
    phase: ChannelPhase,
    path: String,
}

impl View for LocalChannelHandle {
    type V = ChannelView;

    closed spec fn view(&self) -> ChannelView {
        ChannelView { phase: self.phase, path: self.path@ }
    }
}

impl LocalChannelHandle {
    /// A handle for the channel at `path`, not started yet.
    pub fn new(path: String) -> (handle: LocalChannelHandle)
        ensures
            handle@ == (ChannelView { phase: ChannelPhase::Idle, path: path@ }),
    {
        LocalChannelHandle { phase: ChannelPhase::Idle, path }
    }

    /// The phase that the handle is in.
    pub fn phase(&self) -> (phase: ChannelPhase)
        ensures
            phase == self@.phase,
    {
        self.phase
    }

    /// The path of the channel.
    pub fn path(&self) -> (path: &str)
        ensures
            path@ == self@.path,
    {
        self.path.as_str()
    }

    /// The commands that welcome a new connection, the first one or a later
    /// one: see [`welcome`].
    pub fn welcome_commands(first: bool) -> (commands: Vec<ChannelCommand>)
        ensures
            channel_command_views(commands@) == welcome(first),
    {
        let messages = registration_messages();
        let ghost payloads = payload_views(messages@);
        let mut commands: Vec<ChannelCommand> = Vec::new();
        for payload in it: messages
            invariant
                payloads == registration_payloads(),
                it.seq().len() == payloads.len(),
                forall|i: int| 0 <= i < payloads.len() ==> (#[trigger] it.seq()[i])@ == payloads[i],
                commands@.len() == it.index(),
                forall|i: int|
                    0 <= i < commands@.len() ==> (#[trigger] commands@[i])@
                        == ChannelCommandView::Register(payloads[i]),
        {
            commands.push(ChannelCommand::Register(payload));
        }
        commands.push(ChannelCommand::Install);
        if first {
            commands.push(ChannelCommand::StartInbound);
        }
        commands.push(ChannelCommand::Receive(READ_BUFFER_SIZE));
        assert(channel_command_views(commands@) =~= welcome(first));
        commands
    }

    /// Starts the handle: see [`channel_connect`].
    pub fn connect(&mut self) -> (commands: Option<Vec<ChannelCommand>>)
        ensures
            channel_obeys(old(self)@, channel_connect(old(self)@), final(self)@, commands),
    {
        match self.phase {
            ChannelPhase::Idle => {
                self.phase = ChannelPhase::Connecting;
                let mut commands: Vec<ChannelCommand> = Vec::new();
                commands.push(ChannelCommand::Connect(self.path.clone()));
                assert(channel_command_views(commands@) =~= channel_connect(old(self)@)->0.commands);
                Some(commands)
            },
            _ => None,
        }
    }

    /// Takes the outcome of the connection attempt that was asked for last:
    /// see [`channel_connect_result`].
    pub fn on_connect_result(&mut self, connected: bool) -> (commands: Option<Vec<ChannelCommand>>)
        ensures
            channel_obeys(
                old(self)@,
                channel_connect_result(old(self)@, connected),
                final(self)@,
                commands,
            ),
    {
        let first = match self.phase {
            ChannelPhase::Connecting => true,
            ChannelPhase::Reconnecting => false,
            _ => {
                return None;
            },
        };
        if connected {
            self.phase = ChannelPhase::Connected;
            Some(Self::welcome_commands(first))
        } else {
            let mut commands: Vec<ChannelCommand> = Vec::new();
            commands.push(ChannelCommand::Wait(RETRY_DELAY_MS));
            commands.push(ChannelCommand::Connect(self.path.clone()));
            assert(channel_command_views(commands@) =~= channel_connect_result(
                old(self)@,
                connected,
            )->0.commands);
            Some(commands)
        }
    }

    /// Takes the end of the connection: see [`channel_reconnect`].
    pub fn reconnect(&mut self) -> (commands: Option<Vec<ChannelCommand>>)
        ensures
            channel_obeys(old(self)@, channel_reconnect(old(self)@), final(self)@, commands),
    {
        match self.phase {
            ChannelPhase::Connected => {
                self.phase = ChannelPhase::Reconnecting;
                let mut commands: Vec<ChannelCommand> = Vec::new();
                commands.push(ChannelCommand::Connect(self.path.clone()));
                assert(channel_command_views(commands@) =~= channel_reconnect(old(self)@)->0.commands);
                Some(commands)
            },
            _ => None,
        }
    }
}

} // verus!

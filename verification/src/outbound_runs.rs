//! Whole runs of the outbound forwarder: what it does over any sequence of
//! events, not only in one step.
//!
//! A run starts with some handle and takes the events one after the other.
//! An event that the forwarder has no answer to leaves everything as it is.

use vstd::prelude::*;
use crate::bootstrap::registration_payloads;
use crate::broker::response_message;
use crate::channel::{
    attempting, unconnected, welcome, ChannelCommandView, ChannelPhase, ChannelStep, ChannelView,
};
use crate::config::{READ_BUFFER_SIZE, RETRY_DELAY_MS};
use crate::message::MessageView;
use crate::channel::channel_connect;
use crate::channel::{channel_command_views, ChannelCommand};
use crate::outbound::{
    channel_outcome, channel_reports, outbound_next, ChannelEvent, ChannelEventView,
    OutboundForwarder,
};
use crate::sequences::{filter_map_concat, filter_map_nothing, filter_map_pair};

verus! {

/// The phase that the outbound forwarder reaches from `start` over `events`,
/// and all the commands that it hands out on the way.
pub open spec fn outbound_run(start: ChannelView, events: Seq<ChannelEventView>) -> ChannelStep
    decreases events.len(),
{
    if events.len() == 0 {
        ChannelStep { phase: start.phase, commands: Seq::empty() }
    } else {
        let before = outbound_run(start, events.drop_last());
        let handle = ChannelView { phase: before.phase, path: start.path };
        match outbound_next(handle, events.last()) {
            Some(step) => ChannelStep {
                phase: step.phase,
                commands: before.commands + step.commands,
            },
            None => before,
        }
    }
}

/// Whether the outbound forwarder has an answer to each of `events` when it
/// takes them from `start` on: whether each event is the outcome that the
/// forwarder waits for when it arrives.
pub open spec fn outbound_answers(start: ChannelView, events: Seq<ChannelEventView>) -> bool
    decreases events.len(),
{
    events.len() == 0 || {
        let before = outbound_run(start, events.drop_last());
        let handle = ChannelView { phase: before.phase, path: start.path };
        &&& outbound_answers(start, events.drop_last())
        &&& outbound_next(handle, events.last()) is Some
    }
}

/// Those of `events` that the outbound forwarder has an answer to when it
/// takes them from `start` on, in their order.
pub open spec fn outbound_answered(start: ChannelView, events: Seq<ChannelEventView>) -> Seq<
    ChannelEventView,
>
    decreases events.len(),
{
    if events.len() == 0 {
        Seq::empty()
    } else {
        let before = outbound_run(start, events.drop_last());
        let handle = ChannelView { phase: before.phase, path: start.path };
        let answered = outbound_answered(start, events.drop_last());
        if outbound_next(handle, events.last()) is Some {
            answered.push(events.last())
        } else {
            answered
        }
    }
}

/// The views of a list of events.
pub open spec fn channel_event_views(events: Seq<ChannelEvent>) -> Seq<ChannelEventView> {
    events.map_values(|e: ChannelEvent| e@)
}

impl OutboundForwarder {
    /// Takes a whole sequence of events, one after the other, and collects
    /// the commands of all the answers. An event that has no answer is
    /// passed over.
    pub fn replay(&mut self, events: Vec<ChannelEvent>) -> (commands: Vec<ChannelCommand>)
        ensures
            final(self)@.path == old(self)@.path,
            final(self)@.phase == outbound_run(old(self)@, channel_event_views(events@)).phase,
            channel_command_views(commands@) == outbound_run(
                old(self)@,
                channel_event_views(events@),
            ).commands,
    {
        let ghost start = self@;
        let ghost views = channel_event_views(events@);
        let mut commands: Vec<ChannelCommand> = Vec::new();
        for event in it: events
            invariant
                it.seq().len() == views.len(),
                forall|i: int| 0 <= i < views.len() ==> (#[trigger] it.seq()[i])@ == views[i],
                self@.path == start.path,
                self@.phase == outbound_run(start, views.take(it.index() as int)).phase,
                channel_command_views(commands@) == outbound_run(
                    start,
                    views.take(it.index() as int),
                ).commands,
        {
            let ghost taken = views.take(it.index() + 1);
            let ghost before = channel_command_views(commands@);
            assert(taken.drop_last() =~= views.take(it.index() as int));
            assert(taken.last() == event@);
            match self.step(event) {
                Some(mut answer) => {
                    let ghost added = channel_command_views(answer@);
                    commands.append(&mut answer);
                    assert(channel_command_views(commands@) =~= before + added);
                },
                None => {},
            }
        }
        assert(views.take(views.len() as int) =~= views);
        commands
    }
}

/// The message that a command hands to the broker, if it hands one.
pub open spec fn published_message(command: ChannelCommandView) -> Option<MessageView> {
    match command {
        ChannelCommandView::Publish(message) => Some(message),
        _ => None,
    }
}

/// The messages that a list of commands hands to the broker, in their order.
pub open spec fn published(commands: Seq<ChannelCommandView>) -> Seq<MessageView> {
    commands.filter_map(|c: ChannelCommandView| published_message(c))
}

/// The message that is owed for an event: for a read that returned bytes,
/// those bytes on the response topic; for anything else, none.
pub open spec fn owed_message(event: ChannelEventView) -> Option<MessageView> {
    match event {
        ChannelEventView::Read(bytes) => if bytes.len() > 0 {
            Some(response_message(bytes))
        } else {
            None
        },
        _ => None,
    }
}

/// The messages owed for `events`, in their order.
pub open spec fn owed(events: Seq<ChannelEventView>) -> Seq<MessageView> {
    events.filter_map(|e: ChannelEventView| owed_message(e))
}

/// `n` failed connection attempts in a row.
pub open spec fn channel_failures(n: nat) -> Seq<ChannelEventView> {
    Seq::new(n, |i: int| ChannelEventView::ConnectFailed)
}

/// What `n` failed attempts to connect are answered with: each time the
/// retry delay and the next attempt, to the same path.
pub open spec fn channel_retries(n: nat, path: Seq<char>) -> Seq<ChannelCommandView>
    decreases n,
{
    if n == 0 {
        Seq::empty()
    } else {
        channel_retries((n - 1) as nat, path) + seq![
            ChannelCommandView::Wait(RETRY_DELAY_MS),
            ChannelCommandView::Connect(path),
        ]
    }
}

/// Whether a command touches a connection that is not in place yet: whether
/// it sends a registration message or puts the new connection in place.
pub open spec fn prepares(command: ChannelCommandView) -> bool {
    command is Register || command is Install
}

/// The command that starts the broker side, if `command` is that one.
pub open spec fn start_of_inbound(command: ChannelCommandView) -> Option<ChannelCommandView> {
    if command is StartInbound {
        Some(command)
    } else {
        None
    }
}

/// The commands among `commands` that start the broker side.
pub open spec fn starts_of_inbound(commands: Seq<ChannelCommandView>) -> Seq<ChannelCommandView> {
    commands.filter_map(|c: ChannelCommandView| start_of_inbound(c))
}

/// The forwarder never leaves its driver in doubt. Every answer holds at
/// least one command, the last one is one whose outcome is reported, and the
/// events that are answered next are exactly the outcomes of that command. No
/// command before the last one has an outcome. No answer ends the forwarder:
/// it goes on for as long as it is driven.
pub proof fn every_answer_ends_with_what_is_awaited(handle: ChannelView, event: ChannelEventView)
    requires
        outbound_next(handle, event) is Some,
    ensures
        ({
            let step = outbound_next(handle, event)->0;
            let last = step.commands.last();
            let after = ChannelView { phase: step.phase, path: handle.path };
            &&& step.commands.len() > 0
            &&& forall|i: int|
                0 <= i < step.commands.len() - 1 ==> !channel_reports(#[trigger] step.commands[i])
            &&& channel_reports(last)
            &&& forall|next: ChannelEventView|
                (#[trigger] outbound_next(after, next) is Some) == channel_outcome(last, next)
        }),
{
    if event is Connected {
        welcome_in_full();
    }
}

/// Starting the handle asks for the first connection, and the events that
/// are answered next are exactly the outcomes of that attempt. Before the
/// handle is started no event is answered.
pub proof fn starting_awaits_the_first_connection(path: Seq<char>)
    ensures
        channel_connect(ChannelView { phase: ChannelPhase::Idle, path }) == Some(
            ChannelStep {
                phase: ChannelPhase::Connecting,
                commands: seq![ChannelCommandView::Connect(path)],
            },
        ),
        forall|next: ChannelEventView|
            (#[trigger] outbound_next(ChannelView { phase: ChannelPhase::Connecting, path }, next)
                is Some) == channel_outcome(ChannelCommandView::Connect(path), next),
        forall|next: ChannelEventView| #[trigger]
            outbound_next(ChannelView { phase: ChannelPhase::Idle, path }, next) is None,
{
}

/// The welcome of a new connection, command by command: the bind request,
/// the three registrations, the replacement of the old connection, for the
/// first connection the start of the broker side, and the first read.
pub proof fn welcome_in_full()
    ensures
        welcome(true) == seq![
            ChannelCommandView::Register(registration_payloads()[0]),
            ChannelCommandView::Register(registration_payloads()[1]),
            ChannelCommandView::Register(registration_payloads()[2]),
            ChannelCommandView::Register(registration_payloads()[3]),
            ChannelCommandView::Install,
            ChannelCommandView::StartInbound,
            ChannelCommandView::Receive(READ_BUFFER_SIZE),
        ],
        welcome(false) == seq![
            ChannelCommandView::Register(registration_payloads()[0]),
            ChannelCommandView::Register(registration_payloads()[1]),
            ChannelCommandView::Register(registration_payloads()[2]),
            ChannelCommandView::Register(registration_payloads()[3]),
            ChannelCommandView::Install,
            ChannelCommandView::Receive(READ_BUFFER_SIZE),
        ],
        published(welcome(true)) == Seq::<MessageView>::empty(),
        published(welcome(false)) == Seq::<MessageView>::empty(),
        starts_of_inbound(welcome(true)) == seq![ChannelCommandView::StartInbound],
        starts_of_inbound(welcome(false)) == Seq::<ChannelCommandView>::empty(),
{
    let registrations = seq![
        ChannelCommandView::Register(registration_payloads()[0]),
        ChannelCommandView::Register(registration_payloads()[1]),
        ChannelCommandView::Register(registration_payloads()[2]),
        ChannelCommandView::Register(registration_payloads()[3]),
        ChannelCommandView::Install,
    ];
    let start = seq![ChannelCommandView::StartInbound];
    let read = seq![ChannelCommandView::Receive(READ_BUFFER_SIZE)];
    let first = registrations + start + read;
    let later = registrations + read;
    assert(welcome(true) =~= first);
    assert(welcome(false) =~= later);
    let p = |c: ChannelCommandView| published_message(c);
    filter_map_nothing(first, p);
    filter_map_nothing(later, p);
    let s = |c: ChannelCommandView| start_of_inbound(c);
    filter_map_nothing(registrations, s);
    filter_map_nothing(read, s);
    filter_map_nothing(later, s);
    Seq::lemma_filter_map_singleton(ChannelCommandView::StartInbound, s);
    filter_map_concat(registrations, start, s);
    filter_map_concat(registrations + start, read, s);
    assert(starts_of_inbound(first) =~= start);
}

/// Registration messages are sent, and a connection is put in place, only
/// in the welcome of a new connection, which follows a successful attempt and
/// nothing else. So every connection gets the four registration messages, in
/// their order, before it is put in place, and before anything is read from
/// it or sent over it by either forwarder. The broker side is started only
/// in the welcome of the first connection.
pub proof fn only_a_new_connection_is_welcomed(handle: ChannelView, event: ChannelEventView)
    ensures
        match outbound_next(handle, event) {
            Some(step) => if event is Connected {
                step.commands == welcome(handle.phase == ChannelPhase::Connecting)
            } else {
                forall|i: int|
                    0 <= i < step.commands.len() ==> !prepares(#[trigger] step.commands[i])
                        && !(step.commands[i] is StartInbound)
            },
            None => true,
        },
{
}

/// One answered event publishes the message owed for it and nothing else.
proof fn step_publishes(handle: ChannelView, event: ChannelEventView)
    requires
        outbound_next(handle, event) is Some,
    ensures
        published(outbound_next(handle, event)->0.commands) == match owed_message(event) {
            Some(message) => seq![message],
            None => Seq::empty(),
        },
{
    let f = |c: ChannelCommandView| published_message(c);
    let commands = outbound_next(handle, event)->0.commands;
    if event is Connected {
        welcome_in_full();
    } else if commands.len() == 1 {
        assert(commands =~= seq![commands[0]]);
        Seq::lemma_filter_map_singleton(commands[0], f);
    } else {
        assert(commands.len() == 2);
        assert(commands =~= seq![commands[0], commands[1]]);
        filter_map_pair(commands[0], commands[1], f);
        Seq::lemma_filter_map_singleton(commands[0], f);
        Seq::lemma_filter_map_singleton(commands[1], f);
    }
}

/// In every run, the messages handed to the broker are exactly those owed
/// for the answered reads that returned bytes: one for each such read, on the
/// response topic, with the bytes of that read and no others, in the order of
/// the reads. Nothing is published for an empty read. In a run in which every
/// event is answered, these are the messages owed for all the events.
pub proof fn datagrams_are_published_unchanged(start: ChannelView, events: Seq<ChannelEventView>)
    ensures
        published(outbound_run(start, events).commands) == owed(outbound_answered(start, events)),
        outbound_answers(start, events) ==> outbound_answered(start, events) == events,
    decreases events.len(),
{
    if events.len() > 0 {
        let init = events.drop_last();
        let before = outbound_run(start, init);
        let handle = ChannelView { phase: before.phase, path: start.path };
        let answered = outbound_answered(start, init);
        datagrams_are_published_unchanged(start, init);
        match outbound_next(handle, events.last()) {
            Some(step) => {
                step_publishes(handle, events.last());
                filter_map_concat(
                    before.commands,
                    step.commands,
                    |c: ChannelCommandView| published_message(c),
                );
                assert(answered.push(events.last()).drop_last() =~= answered);
                assert(owed(answered.push(events.last())) =~= published(before.commands)
                    + published(step.commands));
                if outbound_answers(start, events) {
                    assert(init.push(events.last()) =~= events);
                }
            },
            None => {},
        }
    }
}

/// An empty read publishes nothing. On a connected handle it is answered
/// with one thing only, an attempt to connect to the same path, at once; a
/// handle that is not connected has no answer to it.
pub proof fn empty_read_starts_a_reconnection(handle: ChannelView)
    ensures
        match outbound_next(handle, ChannelEventView::Read(Seq::empty())) {
            Some(step) => {
                &&& handle.phase == ChannelPhase::Connected
                &&& step.phase == ChannelPhase::Reconnecting
                &&& step.commands == seq![ChannelCommandView::Connect(handle.path)]
                &&& published(step.commands) == Seq::<MessageView>::empty()
            },
            None => handle.phase != ChannelPhase::Connected,
        },
{
    if handle.phase == ChannelPhase::Connected {
        step_publishes(handle, ChannelEventView::Read(Seq::empty()));
    }
}

/// A run over two sequences of events in a row is the run over the first
/// followed by the run over the second from the phase that the first one
/// reached.
pub proof fn outbound_run_concat(
    start: ChannelView,
    first: Seq<ChannelEventView>,
    second: Seq<ChannelEventView>,
)
    ensures
        ({
            let middle = outbound_run(start, first);
            let resumed = ChannelView { phase: middle.phase, path: start.path };
            let end = outbound_run(resumed, second);
            &&& outbound_run(start, first + second) == (ChannelStep {
                phase: end.phase,
                commands: middle.commands + end.commands,
            })
            &&& outbound_answers(start, first + second) == (outbound_answers(start, first)
                && outbound_answers(resumed, second))
        }),
    decreases second.len(),
{
    let middle = outbound_run(start, first);
    let resumed = ChannelView { phase: middle.phase, path: start.path };
    if second.len() == 0 {
        assert(first + second =~= first);
        assert(middle.commands + Seq::<ChannelCommandView>::empty() =~= middle.commands);
    } else {
        assert((first + second).drop_last() =~= first + second.drop_last());
        assert((first + second).last() == second.last());
        outbound_run_concat(start, first, second.drop_last());
        let before = outbound_run(resumed, second.drop_last());
        let handle = ChannelView { phase: before.phase, path: start.path };
        match outbound_next(handle, second.last()) {
            Some(step) => {
                assert((middle.commands + before.commands) + step.commands =~= middle.commands + (
                before.commands + step.commands));
            },
            None => {},
        }
    }
}

/// A run of failed attempts to connect, be it for the first connection or
/// for a later one: the handle keeps trying, at the fixed interval, however
/// many attempts have failed.
pub proof fn connecting_never_gives_up(phase: ChannelPhase, path: Seq<char>, n: nat)
    requires
        attempting(phase),
    ensures
        ({
            let start = ChannelView { phase, path };
            &&& outbound_answers(start, channel_failures(n))
            &&& outbound_run(start, channel_failures(n)) == (ChannelStep {
                phase,
                commands: channel_retries(n, path),
            })
        }),
    decreases n,
{
    if n > 0 {
        connecting_never_gives_up(phase, path, (n - 1) as nat);
        assert(channel_failures(n).drop_last() =~= channel_failures((n - 1) as nat));
    }
}

/// The whole course of a reconnection. After an empty read an attempt to
/// connect is made at once; after each of `n` failed attempts the handle
/// waits and tries again; when an attempt succeeds, the new connection is
/// welcomed, and the read that ends the welcome is the first one since the
/// empty read.
pub proof fn reconnection_replaces_the_connection(path: Seq<char>, n: nat)
    ensures
        ({
            let start = ChannelView { phase: ChannelPhase::Connected, path };
            let events = seq![ChannelEventView::Read(Seq::empty())] + channel_failures(n) + seq![
                ChannelEventView::Connected,
            ];
            &&& outbound_answers(start, events)
            &&& outbound_run(start, events) == (ChannelStep {
                phase: ChannelPhase::Connected,
                commands: seq![ChannelCommandView::Connect(path)] + channel_retries(n, path)
                    + welcome(false),
            })
        }),
{
    let start = ChannelView { phase: ChannelPhase::Connected, path };
    let closed = seq![ChannelEventView::Read(Seq::empty())];
    let events = closed + channel_failures(n) + seq![ChannelEventView::Connected];
    let connect = seq![ChannelCommandView::Connect(path)];
    // The empty read.
    let none = Seq::<ChannelEventView>::empty();
    assert(closed.drop_last() =~= none);
    assert(outbound_answers(start, none));
    assert(outbound_run(start, none).commands + connect =~= connect);
    assert(outbound_run(start, closed) == (ChannelStep {
        phase: ChannelPhase::Reconnecting,
        commands: connect,
    }));
    assert(outbound_answers(start, closed));
    // The attempts that fail.
    let failing = closed + channel_failures(n);
    connecting_never_gives_up(ChannelPhase::Reconnecting, path, n);
    outbound_run_concat(start, closed, channel_failures(n));
    assert(outbound_run(start, failing) == (ChannelStep {
        phase: ChannelPhase::Reconnecting,
        commands: connect + channel_retries(n, path),
    }));
    // The attempt that succeeds.
    assert(events =~= failing.push(ChannelEventView::Connected));
    assert(events.drop_last() =~= failing);
}

/// Before the next read there is exactly one new connection. If a run from
/// a handle that is trying to connect, over events none of which is a read,
/// is followed by a read that is answered, then the events are some failed
/// attempts and one successful attempt after them, and the commands are the
/// retries and one welcome. So it is after an empty read, and so it is at the
/// start.
pub proof fn one_connection_before_the_next_read(
    phase: ChannelPhase,
    path: Seq<char>,
    events: Seq<ChannelEventView>,
    bytes: Seq<u8>,
)
    requires
        attempting(phase),
        forall|i: int| 0 <= i < events.len() ==> !(#[trigger] events[i] is Read),
        outbound_answers(ChannelView { phase, path }, events.push(ChannelEventView::Read(bytes))),
    ensures
        events.len() > 0,
        events == channel_failures((events.len() - 1) as nat).push(ChannelEventView::Connected),
        outbound_run(ChannelView { phase, path }, events) == (ChannelStep {
            phase: ChannelPhase::Connected,
            commands: channel_retries((events.len() - 1) as nat, path) + welcome(
                phase == ChannelPhase::Connecting,
            ),
        }),
{
    assert(events.push(ChannelEventView::Read(bytes)).drop_last() =~= events);
    attempts_until_connected(phase, path, events);
}

/// A run from a handle that is trying to connect, over answered events none
/// of which is a read, is either still trying after nothing but failed
/// attempts, or connected by its last event after nothing but failed
/// attempts before it.
proof fn attempts_until_connected(
    phase: ChannelPhase,
    path: Seq<char>,
    events: Seq<ChannelEventView>,
)
    requires
        attempting(phase),
        forall|i: int| 0 <= i < events.len() ==> !(#[trigger] events[i] is Read),
        outbound_answers(ChannelView { phase, path }, events),
    ensures
        ({
            let end = outbound_run(ChannelView { phase, path }, events);
            let n = events.len();
            ||| {
                &&& end.phase == phase
                &&& events == channel_failures(n)
                &&& end.commands == channel_retries(n, path)
            }
            ||| {
                &&& end.phase == ChannelPhase::Connected
                &&& n > 0
                &&& events == channel_failures((n - 1) as nat).push(ChannelEventView::Connected)
                &&& end.commands == channel_retries((n - 1) as nat, path) + welcome(
                    phase == ChannelPhase::Connecting,
                )
            }
        }),
    decreases events.len(),
{
    let start = ChannelView { phase, path };
    let n = events.len();
    if n == 0 {
        assert(events =~= channel_failures(0));
    } else {
        let init = events.drop_last();
        attempts_until_connected(phase, path, init);
        let before = outbound_run(start, init);
        assert(!(events[n - 1] is Read));
        assert(before.phase == phase);
        assert(init == channel_failures((n - 1) as nat));
        if events.last() is Connected {
            assert(events =~= channel_failures((n - 1) as nat).push(ChannelEventView::Connected));
        } else {
            assert(events.last() == ChannelEventView::ConnectFailed);
            assert(events =~= init.push(events.last()));
            assert(events =~= channel_failures(n));
        }
    }
}

/// One answered event starts the broker side exactly if it is the success
/// of an attempt to open the first connection.
proof fn step_starts_inbound(handle: ChannelView, event: ChannelEventView)
    requires
        outbound_next(handle, event) is Some,
    ensures
        starts_of_inbound(outbound_next(handle, event)->0.commands) == if handle.phase
            == ChannelPhase::Connecting && event is Connected {
            seq![ChannelCommandView::StartInbound]
        } else {
            Seq::empty()
        },
{
    let f = |c: ChannelCommandView| start_of_inbound(c);
    let commands = outbound_next(handle, event)->0.commands;
    if event is Connected {
        welcome_in_full();
    } else {
        filter_map_nothing(commands, f);
    }
}

/// The broker side is started once. In a run from a handle that has had no
/// connection yet, it is started by the time the first connection is in
/// place, and not again, whatever follows; while the handle is still trying
/// to open the first connection, it is not started. A run from a handle that
/// has had a connection does not start it.
pub proof fn inbound_is_started_once(start: ChannelView, events: Seq<ChannelEventView>)
    ensures
        ({
            let end = outbound_run(start, events);
            &&& unconnected(end.phase) ==> unconnected(start.phase)
            &&& starts_of_inbound(end.commands) == if unconnected(start.phase) && !unconnected(
                end.phase,
            ) {
                seq![ChannelCommandView::StartInbound]
            } else {
                Seq::empty()
            }
        }),
    decreases events.len(),
{
    if events.len() > 0 {
        let before = outbound_run(start, events.drop_last());
        let handle = ChannelView { phase: before.phase, path: start.path };
        inbound_is_started_once(start, events.drop_last());
        match outbound_next(handle, events.last()) {
            Some(step) => {
                step_starts_inbound(handle, events.last());
                filter_map_concat(
                    before.commands,
                    step.commands,
                    |c: ChannelCommandView| start_of_inbound(c),
                );
                assert(starts_of_inbound(before.commands) + starts_of_inbound(step.commands)
                    =~= starts_of_inbound(before.commands + step.commands));
            },
            None => {},
        }
    }
}

} // verus!

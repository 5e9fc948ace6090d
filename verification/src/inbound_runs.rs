//! Whole runs of the inbound forwarder: what it does over any sequence of
//! events, not only in one step.
//!
//! A run starts in some phase and takes the events one after the other. An
//! event that the forwarder has no answer to leaves everything as it is.

use vstd::prelude::*;
use crate::broker::{
    command_subscription, BrokerCommandView, LinkPhase, LinkStep, SubscribeReply,
};
use crate::broker::{connect_options, link_connect, LinkError};
use crate::config::{COMMAND_TOPIC, RETRY_DELAY_MS};
use crate::broker::{broker_command_views, BrokerCommand};
use crate::inbound::{
    broker_outcome, broker_reports, inbound_next, BrokerEvent, BrokerEventView, InboundForwarder,
};
use crate::sequences::{filter_map_concat, filter_map_pair};

verus! {

/// The phase that the inbound forwarder reaches from `start` over `events`,
/// and all the commands that it hands out on the way.
pub open spec fn inbound_run(start: LinkPhase, events: Seq<BrokerEventView>) -> LinkStep
    decreases events.len(),
{
    if events.len() == 0 {
        LinkStep { phase: start, commands: Seq::empty() }
    } else {
        let before = inbound_run(start, events.drop_last());
        match inbound_next(before.phase, events.last()) {
            Some(step) => LinkStep { phase: step.phase, commands: before.commands + step.commands },
            None => before,
        }
    }
}

/// Whether the inbound forwarder has an answer to each of `events` when it
/// takes them from `start` on: whether each event is the outcome that the
/// forwarder waits for when it arrives.
pub open spec fn inbound_answers(start: LinkPhase, events: Seq<BrokerEventView>) -> bool
    decreases events.len(),
{
    events.len() == 0 || {
        &&& inbound_answers(start, events.drop_last())
        &&& inbound_next(inbound_run(start, events.drop_last()).phase, events.last()) is Some
    }
}

/// Those of `events` that the inbound forwarder has an answer to when it
/// takes them from `start` on, in their order.
pub open spec fn inbound_answered(start: LinkPhase, events: Seq<BrokerEventView>) -> Seq<
    BrokerEventView,
>
    decreases events.len(),
{
    if events.len() == 0 {
        Seq::empty()
    } else {
        let before = inbound_run(start, events.drop_last());
        let answered = inbound_answered(start, events.drop_last());
        if inbound_next(before.phase, events.last()) is Some {
            answered.push(events.last())
        } else {
            answered
        }
    }
}

/// The views of a list of events.
pub open spec fn broker_event_views(events: Seq<BrokerEvent>) -> Seq<BrokerEventView> {
    events.map_values(|e: BrokerEvent| e@)
}

impl InboundForwarder {
    /// Takes a whole sequence of events, one after the other, and collects
    /// the commands of all the answers. An event that has no answer is
    /// passed over.
    pub fn replay(&mut self, events: Vec<BrokerEvent>) -> (commands: Vec<BrokerCommand>)
        ensures
            final(self)@ == inbound_run(old(self)@, broker_event_views(events@)).phase,
            broker_command_views(commands@) == inbound_run(
                old(self)@,
                broker_event_views(events@),
            ).commands,
    {
        let ghost start = self@;
        let ghost views = broker_event_views(events@);
        let mut commands: Vec<BrokerCommand> = Vec::new();
        for event in it: events
            invariant
                it.seq().len() == views.len(),
                forall|i: int| 0 <= i < views.len() ==> (#[trigger] it.seq()[i])@ == views[i],
                self@ == inbound_run(start, views.take(it.index() as int)).phase,
                broker_command_views(commands@) == inbound_run(
                    start,
                    views.take(it.index() as int),
                ).commands,
        {
            let ghost taken = views.take(it.index() + 1);
            let ghost before = broker_command_views(commands@);
            assert(taken.drop_last() =~= views.take(it.index() as int));
            assert(taken.last() == event@);
            match self.step(event) {
                Some(mut answer) => {
                    let ghost added = broker_command_views(answer@);
                    commands.append(&mut answer);
                    assert(broker_command_views(commands@) =~= before + added);
                },
                None => {},
            }
        }
        assert(views.take(views.len() as int) =~= views);
        commands
    }
}

/// The payload that a command sends into the local channel, if it sends one.
pub open spec fn sent_payload(command: BrokerCommandView) -> Option<Seq<u8>> {
    match command {
        BrokerCommandView::Send(payload) => Some(payload),
        _ => None,
    }
}

/// The payloads that a list of commands sends into the local channel, in
/// their order.
pub open spec fn sent(commands: Seq<BrokerCommandView>) -> Seq<Seq<u8>> {
    commands.filter_map(|c: BrokerCommandView| sent_payload(c))
}

/// The payload of an event that is a message on the command topic.
pub open spec fn command_payload(event: BrokerEventView) -> Option<Seq<u8>> {
    match event {
        BrokerEventView::Element(Some(message)) => if message.topic == COMMAND_TOPIC@ {
            Some(message.payload)
        } else {
            None
        },
        _ => None,
    }
}

/// The payloads of the messages on the command topic among `events`, in
/// their order.
pub open spec fn commands_among(events: Seq<BrokerEventView>) -> Seq<Seq<u8>> {
    events.filter_map(|e: BrokerEventView| command_payload(e))
}

/// Whether an event reports that the broker granted the subscription.
pub open spec fn grants(event: BrokerEventView) -> bool {
    event matches BrokerEventView::Subscribed(SubscribeReply::Answered(Some(_)))
}

/// `n` failed connection attempts in a row.
pub open spec fn broker_failures(n: nat) -> Seq<BrokerEventView> {
    Seq::new(n, |i: int| BrokerEventView::ConnectFailed)
}

/// What `n` failed attempts to connect again are answered with: each time
/// the retry delay and the next attempt.
pub open spec fn broker_retries(n: nat) -> Seq<BrokerCommandView>
    decreases n,
{
    if n == 0 {
        Seq::empty()
    } else {
        broker_retries((n - 1) as nat) + seq![
            BrokerCommandView::Wait(RETRY_DELAY_MS),
            BrokerCommandView::Reconnect,
        ]
    }
}

/// The forwarder never leaves its driver in doubt. Every answer holds at
/// least one command. If the answer ends the link, its last command is the
/// order to stop, with the reason, and no event is answered any more.
/// Otherwise its last command is one whose outcome is reported, and the
/// events that are answered next are exactly the outcomes of that command.
/// No command before the last one has an outcome or is an order to stop.
pub proof fn every_answer_ends_with_what_is_awaited(phase: LinkPhase, event: BrokerEventView)
    requires
        inbound_next(phase, event) is Some,
    ensures
        ({
            let step = inbound_next(phase, event)->0;
            let last = step.commands.last();
            &&& step.commands.len() > 0
            &&& forall|i: int|
                0 <= i < step.commands.len() - 1 ==> !broker_reports(#[trigger] step.commands[i])
                    && !(step.commands[i] is Abort)
            &&& match step.phase {
                LinkPhase::Failed(error) => {
                    &&& last == BrokerCommandView::Abort(error)
                    &&& forall|next: BrokerEventView| #[trigger]
                        inbound_next(step.phase, next) is None
                },
                _ => {
                    &&& broker_reports(last)
                    &&& forall|next: BrokerEventView|
                        (#[trigger] inbound_next(step.phase, next) is Some) == broker_outcome(
                            last,
                            next,
                        )
                },
            }
        }),
{
}

/// Starting the link asks for the first connection, and the events that are
/// answered next are exactly the outcomes of that attempt. Before the link
/// is started no event is answered.
pub proof fn starting_awaits_the_first_connection()
    ensures
        link_connect(LinkPhase::Idle) == Some(
            LinkStep {
                phase: LinkPhase::Connecting,
                commands: seq![BrokerCommandView::Connect(connect_options())],
            },
        ),
        forall|next: BrokerEventView|
            (#[trigger] inbound_next(LinkPhase::Connecting, next) is Some) == broker_outcome(
                BrokerCommandView::Connect(connect_options()),
                next,
            ),
        forall|next: BrokerEventView| #[trigger] inbound_next(LinkPhase::Idle, next) is None,
{
}

/// Every connection gets the subscription: whenever a connection attempt
/// succeeds, the first one or a later one, the one thing asked for next is
/// the subscription to the command topic, and the link waits for the reply.
pub proof fn every_connection_is_subscribed(phase: LinkPhase)
    ensures
        inbound_next(phase, BrokerEventView::Connected) matches Some(step) ==> {
            &&& step.phase == LinkPhase::Subscribing
            &&& step.commands == seq![BrokerCommandView::Subscribe(command_subscription())]
        },
{
}

/// The link gives up in two cases only: when the first connection attempt
/// fails, and when a subscription request is not granted, be it after the
/// first connection or after a later one. In the second case the connection
/// is closed before the order to stop. The loss of the connection and failed
/// attempts to restore it never end the link.
pub proof fn what_ends_the_link(phase: LinkPhase, event: BrokerEventView)
    requires
        inbound_next(phase, event) is Some,
    ensures
        ({
            let step = inbound_next(phase, event)->0;
            match step.phase {
                LinkPhase::Failed(LinkError::Connect) => {
                    &&& phase == LinkPhase::Connecting
                    &&& event == BrokerEventView::ConnectFailed
                    &&& step.commands == seq![BrokerCommandView::Abort(LinkError::Connect)]
                },
                LinkPhase::Failed(error) => {
                    &&& phase == LinkPhase::Subscribing
                    &&& event matches BrokerEventView::Subscribed(reply)
                    &&& !(reply matches SubscribeReply::Answered(Some(_)))
                    &&& (error == LinkError::Subscribe) == (reply == SubscribeReply::Failed)
                    &&& step.commands == seq![
                        BrokerCommandView::Disconnect,
                        BrokerCommandView::Abort(error),
                    ]
                },
                _ => !(phase == LinkPhase::Connecting && event == BrokerEventView::ConnectFailed)
                    && !(event matches BrokerEventView::Subscribed(reply)
                    && !(reply matches SubscribeReply::Answered(Some(_)))),
            }
        }),
{
}

/// One answered event forwards the payload of a message on the command
/// topic and nothing else.
proof fn step_sends(phase: LinkPhase, event: BrokerEventView)
    requires
        inbound_next(phase, event) is Some,
    ensures
        sent(inbound_next(phase, event)->0.commands) == match command_payload(event) {
            Some(payload) => seq![payload],
            None => Seq::empty(),
        },
{
    let f = |c: BrokerCommandView| sent_payload(c);
    let commands = inbound_next(phase, event)->0.commands;
    if commands.len() == 1 {
        assert(commands =~= seq![commands[0]]);
        Seq::lemma_filter_map_singleton(commands[0], f);
    } else {
        assert(commands.len() == 2);
        assert(commands =~= seq![commands[0], commands[1]]);
        filter_map_pair(commands[0], commands[1], f);
        Seq::lemma_filter_map_singleton(commands[0], f);
        Seq::lemma_filter_map_singleton(commands[1], f);
    }
}

/// In every run, the payloads sent into the local channel are exactly the
/// payloads of the messages on the command topic among the events that were
/// answered: each one once, byte for byte, in the order of arrival, and
/// nothing besides. In a run in which every event is answered, these are all
/// the messages on the command topic among the events.
pub proof fn commands_are_sent_unchanged(start: LinkPhase, events: Seq<BrokerEventView>)
    ensures
        sent(inbound_run(start, events).commands) == commands_among(
            inbound_answered(start, events),
        ),
        inbound_answers(start, events) ==> inbound_answered(start, events) == events,
    decreases events.len(),
{
    if events.len() > 0 {
        let init = events.drop_last();
        let before = inbound_run(start, init);
        let answered = inbound_answered(start, init);
        commands_are_sent_unchanged(start, init);
        match inbound_next(before.phase, events.last()) {
            Some(step) => {
                step_sends(before.phase, events.last());
                filter_map_concat(
                    before.commands,
                    step.commands,
                    |c: BrokerCommandView| sent_payload(c),
                );
                assert(answered.push(events.last()).drop_last() =~= answered);
                assert(commands_among(answered.push(events.last())) =~= sent(before.commands)
                    + sent(step.commands));
                if inbound_answers(start, events) {
                    assert(init.push(events.last()) =~= events);
                }
            },
            None => {},
        }
    }
}

/// A message on another topic than the command topic is passed over: in any
/// phase it sends nothing into the local channel.
pub proof fn other_topics_are_ignored(phase: LinkPhase, event: BrokerEventView)
    requires
        command_payload(event) is None,
    ensures
        inbound_next(phase, event) matches Some(step) ==> sent(step.commands).len() == 0,
{
    if inbound_next(phase, event) is Some {
        step_sends(phase, event);
    }
}

/// Until the broker has granted the subscription, nothing is read from the
/// stream and nothing is sent into the local channel: from any phase but the
/// ready one, a run over events none of which grants the subscription does
/// not become ready, asks for no element of the stream and forwards nothing.
pub proof fn nothing_is_delivered_before_the_subscription(
    start: LinkPhase,
    events: Seq<BrokerEventView>,
)
    requires
        start != LinkPhase::Ready,
        forall|i: int| 0 <= i < events.len() ==> !grants(#[trigger] events[i]),
    ensures
        inbound_run(start, events).phase != LinkPhase::Ready,
        !inbound_run(start, events).commands.contains(BrokerCommandView::Poll),
        sent(inbound_run(start, events).commands).len() == 0,
    decreases events.len(),
{
    let f = |c: BrokerCommandView| sent_payload(c);
    if events.len() > 0 {
        let before = inbound_run(start, events.drop_last());
        nothing_is_delivered_before_the_subscription(start, events.drop_last());
        assert(!grants(events[events.len() - 1]));
        match inbound_next(before.phase, events.last()) {
            Some(step) => {
                step_sends(before.phase, events.last());
                filter_map_concat(before.commands, step.commands, f);
                assert(!step.commands.contains(BrokerCommandView::Poll));
                let all = before.commands + step.commands;
                assert forall|i: int| 0 <= i < all.len() implies all[i]
                    != BrokerCommandView::Poll by {
                    if i < before.commands.len() {
                        assert(before.commands.contains(before.commands[i]));
                    } else {
                        assert(step.commands.contains(step.commands[i - before.commands.len()]));
                    }
                }
            },
            None => {},
        }
    }
}

/// A run of failed attempts to connect again: the link keeps trying, at the
/// fixed interval, however many attempts have failed.
pub proof fn reconnecting_never_gives_up(n: nat)
    ensures
        inbound_answers(LinkPhase::Reconnecting, broker_failures(n)),
        inbound_run(LinkPhase::Reconnecting, broker_failures(n)) == (LinkStep {
            phase: LinkPhase::Reconnecting,
            commands: broker_retries(n),
        }),
    decreases n,
{
    if n > 0 {
        reconnecting_never_gives_up((n - 1) as nat);
        assert(broker_failures(n).drop_last() =~= broker_failures((n - 1) as nat));
    }
}

/// The whole course of a reconnection. When the stream reports the loss of
/// the connection, an attempt to connect again is made at once; after each
/// of `n` failed attempts the link waits and tries again; when an attempt
/// succeeds, the subscription is requested; and only when the broker has
/// granted it is the stream read again.
pub proof fn reconnection_restores_the_subscription(n: nat, level: i32)
    ensures
        ({
            let events = seq![BrokerEventView::Element(None)] + broker_failures(n) + seq![
                BrokerEventView::Connected,
                BrokerEventView::Subscribed(SubscribeReply::Answered(Some(level))),
            ];
            &&& inbound_answers(LinkPhase::Ready, events)
            &&& inbound_run(LinkPhase::Ready, events) == (LinkStep {
                phase: LinkPhase::Ready,
                commands: seq![BrokerCommandView::Reconnect] + broker_retries(n) + seq![
                    BrokerCommandView::Subscribe(command_subscription()),
                    BrokerCommandView::Poll,
                ],
            })
        }),
{
    let lost = seq![BrokerEventView::Element(None)];
    let connected = BrokerEventView::Connected;
    let granted = BrokerEventView::Subscribed(SubscribeReply::Answered(Some(level)));
    let events = lost + broker_failures(n) + seq![connected, granted];
    let reconnect = seq![BrokerCommandView::Reconnect];
    let subscribe = seq![BrokerCommandView::Subscribe(command_subscription())];
    let poll = seq![BrokerCommandView::Poll];
    // The loss of the connection.
    let none = Seq::<BrokerEventView>::empty();
    assert(lost.drop_last() =~= none);
    assert(inbound_answers(LinkPhase::Ready, none));
    assert(inbound_run(LinkPhase::Ready, none).commands + reconnect =~= reconnect);
    assert(inbound_run(LinkPhase::Ready, lost) == (LinkStep {
        phase: LinkPhase::Reconnecting,
        commands: reconnect,
    }));
    assert(inbound_answers(LinkPhase::Ready, lost));
    // The attempts that fail.
    let failing = lost + broker_failures(n);
    reconnecting_never_gives_up(n);
    inbound_run_concat(LinkPhase::Ready, lost, broker_failures(n));
    assert(inbound_run(LinkPhase::Ready, failing) == (LinkStep {
        phase: LinkPhase::Reconnecting,
        commands: reconnect + broker_retries(n),
    }));
    // The attempt that succeeds.
    let up = failing.push(connected);
    assert(up.drop_last() =~= failing);
    assert(inbound_run(LinkPhase::Ready, up) == (LinkStep {
        phase: LinkPhase::Subscribing,
        commands: reconnect + broker_retries(n) + subscribe,
    }));
    assert(inbound_answers(LinkPhase::Ready, up));
    // The grant.
    assert(events =~= up.push(granted));
    assert(events.drop_last() =~= up);
    assert(inbound_run(LinkPhase::Ready, events) == (LinkStep {
        phase: LinkPhase::Ready,
        commands: reconnect + broker_retries(n) + subscribe + poll,
    }));
    assert(reconnect + broker_retries(n) + subscribe + poll =~= reconnect + broker_retries(n)
        + seq![
        BrokerCommandView::Subscribe(command_subscription()),
        BrokerCommandView::Poll,
    ]);
}

/// A run over two sequences of events in a row is the run over the first
/// followed by the run over the second from the phase that the first one
/// reached.
pub proof fn inbound_run_concat(
    start: LinkPhase,
    first: Seq<BrokerEventView>,
    second: Seq<BrokerEventView>,
)
    ensures
        ({
            let middle = inbound_run(start, first);
            let end = inbound_run(middle.phase, second);
            &&& inbound_run(start, first + second) == (LinkStep {
                phase: end.phase,
                commands: middle.commands + end.commands,
            })
            &&& inbound_answers(start, first + second) == (inbound_answers(start, first)
                && inbound_answers(middle.phase, second))
        }),
    decreases second.len(),
{
    let middle = inbound_run(start, first);
    if second.len() == 0 {
        assert(first + second =~= first);
        assert(middle.commands + Seq::<BrokerCommandView>::empty() =~= middle.commands);
    } else {
        assert((first + second).drop_last() =~= first + second.drop_last());
        assert((first + second).last() == second.last());
        inbound_run_concat(start, first, second.drop_last());
        let before = inbound_run(middle.phase, second.drop_last());
        match inbound_next(before.phase, second.last()) {
            Some(step) => {
                assert((middle.commands + before.commands) + step.commands =~= middle.commands + (
                before.commands + step.commands));
            },
            None => {},
        }
    }
}

} // verus!

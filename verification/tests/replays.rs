use agent2mqtt::broker::{BrokerCommand, LinkError, LinkPhase, SubscribeReply};
use agent2mqtt::channel::{ChannelCommand, ChannelPhase};
use agent2mqtt::inbound::{BrokerEvent, InboundForwarder};
use agent2mqtt::message::{Message, Qos};
use agent2mqtt::outbound::{ChannelEvent, OutboundForwarder};

fn command(payload: &[u8]) -> Message {
    Message::new("agent/command".to_string(), payload.to_vec(), Qos::AtMostOnce)
}

fn granted() -> BrokerEvent {
    BrokerEvent::Subscribed(SubscribeReply::Answered(Some(0)))
}

fn step_by_step_inbound(events: &[BrokerEvent]) -> (LinkPhase, Vec<BrokerCommand>) {
    let mut forwarder = InboundForwarder::new();
    let mut all = forwarder.start().unwrap();
    for event in events {
        if let Some(answer) = forwarder.step(event.clone()) {
            all.extend(answer);
        }
    }
    (forwarder.link().phase(), all)
}

fn step_by_step_outbound(events: &[ChannelEvent]) -> (ChannelPhase, Vec<ChannelCommand>) {
    let mut forwarder = OutboundForwarder::new("/run/agent".to_string());
    let mut all = forwarder.start().unwrap();
    for event in events {
        if let Some(answer) = forwarder.step(event.clone()) {
            all.extend(answer);
        }
    }
    (forwarder.handle().phase(), all)
}

#[test]
fn replay_of_nothing_does_nothing() {
    let mut inbound = InboundForwarder::new();
    assert_eq!(inbound.replay(Vec::new()), Vec::new());
    assert_eq!(inbound.link().phase(), LinkPhase::Idle);
    let mut outbound = OutboundForwarder::new("/run/agent".to_string());
    assert_eq!(outbound.replay(Vec::new()), Vec::new());
    assert_eq!(outbound.handle().phase(), ChannelPhase::Idle);
}

#[test]
fn inbound_replay_is_the_steps_in_a_row() {
    let events = vec![
        BrokerEvent::Connected,
        granted(),
        BrokerEvent::Element(Some(command(b"a"))),
        BrokerEvent::Element(None),
        BrokerEvent::ConnectFailed,
        BrokerEvent::ConnectFailed,
        BrokerEvent::Connected,
        granted(),
        BrokerEvent::Element(Some(command(b"b"))),
    ];
    let (phase, expected) = step_by_step_inbound(&events);
    let mut forwarder = InboundForwarder::new();
    let mut all = forwarder.start().unwrap();
    all.extend(forwarder.replay(events));
    assert_eq!(all, expected);
    assert_eq!(forwarder.link().phase(), phase);
    assert_eq!(phase, LinkPhase::Ready);
    assert_eq!(all.len(), 1 + 1 + 1 + 2 + 1 + 2 + 2 + 1 + 1 + 2);
}

#[test]
fn inbound_replay_passes_over_what_has_no_answer() {
    let events = vec![
        BrokerEvent::Element(Some(command(b"too early"))),
        BrokerEvent::Connected,
        BrokerEvent::Connected,
        BrokerEvent::Element(None),
        granted(),
        granted(),
        BrokerEvent::Element(Some(command(b"in time"))),
    ];
    let mut forwarder = InboundForwarder::new();
    forwarder.start().unwrap();
    let all = forwarder.replay(events);
    assert_eq!(
        all,
        vec![
            BrokerCommand::Subscribe(agent2mqtt::broker::BrokerLink::subscription()),
            BrokerCommand::Poll,
            BrokerCommand::Send(b"in time".to_vec()),
            BrokerCommand::Poll,
        ]
    );
}

#[test]
fn inbound_replay_stops_answering_after_the_link_failed() {
    let events = vec![
        BrokerEvent::Connected,
        BrokerEvent::Subscribed(SubscribeReply::Answered(None)),
        BrokerEvent::Connected,
        granted(),
        BrokerEvent::Element(Some(command(b"x"))),
    ];
    let mut forwarder = InboundForwarder::new();
    forwarder.start().unwrap();
    let all = forwarder.replay(events);
    assert_eq!(all.len(), 3);
    assert_eq!(all[1], BrokerCommand::Disconnect);
    assert_eq!(all[2], BrokerCommand::Abort(LinkError::BadResponse));
    assert_eq!(forwarder.link().phase(), LinkPhase::Failed(LinkError::BadResponse));
}

#[test]
fn inbound_replay_before_the_start_answers_nothing() {
    let mut forwarder = InboundForwarder::new();
    let all = forwarder.replay(vec![BrokerEvent::Connected, granted(), BrokerEvent::Element(None)]);
    assert!(all.is_empty());
    assert_eq!(forwarder.link().phase(), LinkPhase::Idle);
}

#[test]
fn outbound_replay_is_the_steps_in_a_row() {
    let events = vec![
        ChannelEvent::ConnectFailed,
        ChannelEvent::Connected,
        ChannelEvent::Read(b"one".to_vec()),
        ChannelEvent::Read(Vec::new()),
        ChannelEvent::ConnectFailed,
        ChannelEvent::Connected,
        ChannelEvent::Read(b"two".to_vec()),
    ];
    let (phase, expected) = step_by_step_outbound(&events);
    let mut forwarder = OutboundForwarder::new("/run/agent".to_string());
    let mut all = forwarder.start().unwrap();
    all.extend(forwarder.replay(events));
    assert_eq!(all, expected);
    assert_eq!(forwarder.handle().phase(), phase);
    assert_eq!(phase, ChannelPhase::Connected);
    assert_eq!(forwarder.handle().path(), "/run/agent");
    assert_eq!(all.len(), 1 + 2 + 7 + 2 + 1 + 2 + 6 + 2);
}

#[test]
fn outbound_replay_passes_over_what_has_no_answer() {
    let events = vec![
        ChannelEvent::Read(b"too early".to_vec()),
        ChannelEvent::Connected,
        ChannelEvent::Connected,
        ChannelEvent::ConnectFailed,
        ChannelEvent::Read(b"in time".to_vec()),
    ];
    let mut forwarder = OutboundForwarder::new("/run/agent".to_string());
    forwarder.start().unwrap();
    let all = forwarder.replay(events);
    assert_eq!(all.len(), 7 + 2);
    assert_eq!(
        all[7],
        ChannelCommand::Publish(Message::new(
            "agent/response".to_string(),
            b"in time".to_vec(),
            Qos::AtMostOnce
        ))
    );
    assert_eq!(all[8], ChannelCommand::Receive(4096));
}

#[test]
fn outbound_replay_of_failures_only_waits_and_connects() {
    let mut forwarder = OutboundForwarder::new("/run/agent".to_string());
    forwarder.start().unwrap();
    let all = forwarder.replay(vec![ChannelEvent::ConnectFailed; 12]);
    assert_eq!(all.len(), 24);
    for pair in all.chunks(2) {
        assert_eq!(pair[0], ChannelCommand::Wait(500));
        assert_eq!(pair[1], ChannelCommand::Connect("/run/agent".to_string()));
    }
    assert_eq!(forwarder.handle().phase(), ChannelPhase::Connecting);
}

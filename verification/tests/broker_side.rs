use agent2mqtt::broker::{
    BrokerCommand, BrokerLink, ConnectionState, LinkError, LinkPhase, SubscribeReply,
};
use agent2mqtt::inbound::{BrokerEvent, InboundForwarder};
use agent2mqtt::message::{ConnectOptions, Message, Qos, Subscription};

fn options() -> ConnectOptions {
    ConnectOptions { keep_alive_secs: 20, clean_session: true }
}

fn subscription() -> Subscription {
    Subscription::new("agent/command".to_string(), Qos::AtMostOnce)
}

fn command(payload: &[u8]) -> Message {
    Message::new("agent/command".to_string(), payload.to_vec(), Qos::AtMostOnce)
}

fn granted() -> BrokerEvent {
    BrokerEvent::Subscribed(SubscribeReply::Answered(Some(0)))
}

fn ready_forwarder() -> InboundForwarder {
    let mut forwarder = InboundForwarder::new();
    forwarder.start().unwrap();
    forwarder.step(BrokerEvent::Connected).unwrap();
    forwarder.step(granted()).unwrap();
    assert_eq!(forwarder.link().phase(), LinkPhase::Ready);
    forwarder
}

fn sent(commands: &[BrokerCommand]) -> Vec<Vec<u8>> {
    let mut payloads = Vec::new();
    for command in commands {
        if let BrokerCommand::Send(payload) = command {
            payloads.push(payload.clone());
        }
    }
    payloads
}

#[test]
fn new_link_is_idle_and_disconnected() {
    let link = BrokerLink::new();
    assert_eq!(link.phase(), LinkPhase::Idle);
    assert_eq!(link.connection_state(), ConnectionState::Disconnected);
}

#[test]
fn link_options_are_twenty_seconds_and_a_clean_session() {
    assert_eq!(BrokerLink::options(), options());
    assert_eq!(BrokerLink::options().keep_alive_secs, 20);
    assert!(BrokerLink::options().clean_session);
}

#[test]
fn link_subscription_is_the_command_topic_at_most_once() {
    let subscription = BrokerLink::subscription();
    assert_eq!(subscription.topic(), "agent/command");
    assert_eq!(subscription.qos(), Qos::AtMostOnce);
    assert_eq!(subscription.qos().level(), 0);
}

#[test]
fn connect_asks_for_the_first_connection() {
    let mut link = BrokerLink::new();
    assert_eq!(link.connect(), Some(vec![BrokerCommand::Connect(options())]));
    assert_eq!(link.phase(), LinkPhase::Connecting);
    assert_eq!(link.connection_state(), ConnectionState::Connecting);
}

#[test]
fn connect_has_no_answer_once_started() {
    let mut link = BrokerLink::new();
    link.connect().unwrap();
    assert_eq!(link.connect(), None);
    assert_eq!(link.phase(), LinkPhase::Connecting);
}

#[test]
fn first_connection_is_followed_by_the_subscription() {
    let mut link = BrokerLink::new();
    link.connect().unwrap();
    assert_eq!(link.on_connect_result(true), Some(vec![BrokerCommand::Subscribe(subscription())]));
    assert_eq!(link.phase(), LinkPhase::Subscribing);
    assert_eq!(link.connection_state(), ConnectionState::Connected);
}

#[test]
fn failure_of_the_first_connection_is_fatal() {
    let mut link = BrokerLink::new();
    link.connect().unwrap();
    assert_eq!(link.on_connect_result(false), Some(vec![BrokerCommand::Abort(LinkError::Connect)]));
    assert_eq!(link.phase(), LinkPhase::Failed(LinkError::Connect));
    assert_eq!(link.connection_state(), ConnectionState::Disconnected);
}

#[test]
fn connect_result_has_no_answer_without_an_attempt() {
    let mut idle = BrokerLink::new();
    assert_eq!(idle.on_connect_result(true), None);
    assert_eq!(idle.on_connect_result(false), None);
    assert_eq!(idle.phase(), LinkPhase::Idle);
    let mut subscribing = BrokerLink::new();
    subscribing.connect().unwrap();
    subscribing.on_connect_result(true).unwrap();
    assert_eq!(subscribing.on_connect_result(true), None);
    assert_eq!(subscribing.on_connect_result(false), None);
    assert_eq!(subscribing.phase(), LinkPhase::Subscribing);
}

#[test]
fn check_reply_tells_the_three_replies_apart() {
    assert_eq!(BrokerLink::check_reply(SubscribeReply::Answered(Some(0))), Ok(()));
    assert_eq!(BrokerLink::check_reply(SubscribeReply::Answered(Some(1))), Ok(()));
    assert_eq!(BrokerLink::check_reply(SubscribeReply::Answered(None)), Err(LinkError::BadResponse));
    assert_eq!(BrokerLink::check_reply(SubscribeReply::Failed), Err(LinkError::Subscribe));
}

#[test]
fn granted_subscription_makes_the_link_ready() {
    let mut link = BrokerLink::new();
    link.connect().unwrap();
    link.on_connect_result(true).unwrap();
    assert_eq!(
        link.on_subscribe_reply(SubscribeReply::Answered(Some(0))),
        Some(vec![BrokerCommand::Poll])
    );
    assert_eq!(link.phase(), LinkPhase::Ready);
    assert_eq!(link.connection_state(), ConnectionState::Connected);
}

#[test]
fn answer_without_a_grant_closes_and_aborts() {
    let mut link = BrokerLink::new();
    link.connect().unwrap();
    link.on_connect_result(true).unwrap();
    assert_eq!(
        link.on_subscribe_reply(SubscribeReply::Answered(None)),
        Some(vec![BrokerCommand::Disconnect, BrokerCommand::Abort(LinkError::BadResponse)])
    );
    assert_eq!(link.phase(), LinkPhase::Failed(LinkError::BadResponse));
    assert_eq!(link.connection_state(), ConnectionState::Disconnected);
}

#[test]
fn failed_subscription_request_closes_and_aborts() {
    let mut link = BrokerLink::new();
    link.connect().unwrap();
    link.on_connect_result(true).unwrap();
    assert_eq!(
        link.on_subscribe_reply(SubscribeReply::Failed),
        Some(vec![BrokerCommand::Disconnect, BrokerCommand::Abort(LinkError::Subscribe)])
    );
    assert_eq!(link.phase(), LinkPhase::Failed(LinkError::Subscribe));
}

#[test]
fn subscribe_reply_has_no_answer_without_a_request() {
    let mut link = BrokerLink::new();
    assert_eq!(link.on_subscribe_reply(SubscribeReply::Answered(Some(0))), None);
    link.connect().unwrap();
    assert_eq!(link.on_subscribe_reply(SubscribeReply::Failed), None);
    assert_eq!(link.phase(), LinkPhase::Connecting);
}

#[test]
fn reconnect_starts_at_once_from_a_ready_link() {
    let mut link = BrokerLink::new();
    link.connect().unwrap();
    link.on_connect_result(true).unwrap();
    link.on_subscribe_reply(SubscribeReply::Answered(Some(0))).unwrap();
    assert_eq!(link.reconnect(), Some(vec![BrokerCommand::Reconnect]));
    assert_eq!(link.phase(), LinkPhase::Reconnecting);
    assert_eq!(link.connection_state(), ConnectionState::Connecting);
}

#[test]
fn reconnect_has_no_answer_unless_ready() {
    let mut link = BrokerLink::new();
    assert_eq!(link.reconnect(), None);
    link.connect().unwrap();
    assert_eq!(link.reconnect(), None);
    link.on_connect_result(true).unwrap();
    assert_eq!(link.reconnect(), None);
    assert_eq!(link.phase(), LinkPhase::Subscribing);
}

#[test]
fn failed_reconnection_waits_and_tries_again() {
    let mut link = BrokerLink::new();
    link.connect().unwrap();
    link.on_connect_result(true).unwrap();
    link.on_subscribe_reply(SubscribeReply::Answered(Some(0))).unwrap();
    link.reconnect().unwrap();
    for _ in 0..50 {
        assert_eq!(
            link.on_connect_result(false),
            Some(vec![BrokerCommand::Wait(500), BrokerCommand::Reconnect])
        );
        assert_eq!(link.phase(), LinkPhase::Reconnecting);
    }
    assert_eq!(link.on_connect_result(true), Some(vec![BrokerCommand::Subscribe(subscription())]));
    assert_eq!(link.phase(), LinkPhase::Subscribing);
}

#[test]
fn refused_subscription_after_reconnection_is_fatal_too() {
    let mut link = BrokerLink::new();
    link.connect().unwrap();
    link.on_connect_result(true).unwrap();
    link.on_subscribe_reply(SubscribeReply::Answered(Some(0))).unwrap();
    link.reconnect().unwrap();
    link.on_connect_result(true).unwrap();
    assert_eq!(
        link.on_subscribe_reply(SubscribeReply::Answered(None)),
        Some(vec![BrokerCommand::Disconnect, BrokerCommand::Abort(LinkError::BadResponse)])
    );
}

#[test]
fn failed_link_answers_nothing() {
    let mut link = BrokerLink::new();
    link.connect().unwrap();
    link.on_connect_result(false).unwrap();
    assert_eq!(link.connect(), None);
    assert_eq!(link.on_connect_result(true), None);
    assert_eq!(link.on_subscribe_reply(SubscribeReply::Answered(Some(0))), None);
    assert_eq!(link.reconnect(), None);
    assert_eq!(link.phase(), LinkPhase::Failed(LinkError::Connect));
}

#[test]
fn publish_wraps_the_payload_for_the_response_topic() {
    let message = BrokerLink::publish(vec![1, 2, 3]);
    assert_eq!(message.topic(), "agent/response");
    assert_eq!(message.payload(), &[1u8, 2, 3][..]);
    assert_eq!(message.qos(), Qos::AtMostOnce);
}

#[test]
fn publish_differs_from_its_argument_only_by_the_wrapping() {
    let payload = b"payload".to_vec();
    let message = BrokerLink::publish(payload.clone());
    assert_eq!(message, Message::new("agent/response".to_string(), payload, Qos::AtMostOnce));
}

#[test]
fn forwarder_starts_with_the_connection() {
    let mut forwarder = InboundForwarder::new();
    assert_eq!(forwarder.link().phase(), LinkPhase::Idle);
    assert_eq!(forwarder.start(), Some(vec![BrokerCommand::Connect(options())]));
    assert_eq!(forwarder.start(), None);
    assert_eq!(forwarder.link().phase(), LinkPhase::Connecting);
}

#[test]
fn forwarder_answers_nothing_before_it_is_started() {
    let mut forwarder = InboundForwarder::new();
    assert_eq!(forwarder.step(BrokerEvent::Connected), None);
    assert_eq!(forwarder.step(BrokerEvent::ConnectFailed), None);
    assert_eq!(forwarder.step(granted()), None);
    assert_eq!(forwarder.step(BrokerEvent::Element(None)), None);
    assert_eq!(forwarder.step(BrokerEvent::Element(Some(command(b"x")))), None);
    assert_eq!(forwarder.link().phase(), LinkPhase::Idle);
}

#[test]
fn dispatch_sends_a_command_and_reads_on() {
    assert_eq!(
        InboundForwarder::dispatch(command(b"{\"cmd\":\"ping\"}")),
        vec![BrokerCommand::Send(b"{\"cmd\":\"ping\"}".to_vec()), BrokerCommand::Poll]
    );
}

#[test]
fn dispatch_passes_over_other_topics() {
    let other = Message::new("agent/response".to_string(), b"x".to_vec(), Qos::AtMostOnce);
    assert_eq!(InboundForwarder::dispatch(other), vec![BrokerCommand::Poll]);
    let near = Message::new("agent/command/".to_string(), b"x".to_vec(), Qos::AtMostOnce);
    assert_eq!(InboundForwarder::dispatch(near), vec![BrokerCommand::Poll]);
    let upper = Message::new("Agent/Command".to_string(), b"x".to_vec(), Qos::AtMostOnce);
    assert_eq!(InboundForwarder::dispatch(upper), vec![BrokerCommand::Poll]);
    let none = Message::new(String::new(), b"x".to_vec(), Qos::AtMostOnce);
    assert_eq!(InboundForwarder::dispatch(none), vec![BrokerCommand::Poll]);
}

#[test]
fn dispatch_sends_an_empty_command_too() {
    assert_eq!(
        InboundForwarder::dispatch(command(b"")),
        vec![BrokerCommand::Send(Vec::new()), BrokerCommand::Poll]
    );
}

#[test]
fn command_bytes_reach_the_channel_unchanged() {
    let mut forwarder = ready_forwarder();
    let payload: Vec<u8> = vec![0x00, 0xff, 0xfe, 0x80, b'{', 0xc3, 0x28, b'}'];
    assert_eq!(
        forwarder.step(BrokerEvent::Element(Some(command(&payload)))),
        Some(vec![BrokerCommand::Send(payload), BrokerCommand::Poll])
    );
    assert_eq!(forwarder.link().phase(), LinkPhase::Ready);
}

#[test]
fn messages_are_not_taken_before_the_link_is_ready() {
    let mut forwarder = InboundForwarder::new();
    forwarder.start().unwrap();
    assert_eq!(forwarder.step(BrokerEvent::Element(Some(command(b"x")))), None);
    forwarder.step(BrokerEvent::Connected).unwrap();
    assert_eq!(forwarder.step(BrokerEvent::Element(Some(command(b"x")))), None);
    assert_eq!(forwarder.step(BrokerEvent::Element(None)), None);
    assert_eq!(forwarder.link().phase(), LinkPhase::Subscribing);
}

#[test]
fn stream_closure_reconnects_until_success_and_resubscribes() {
    let mut forwarder = ready_forwarder();
    assert_eq!(forwarder.step(BrokerEvent::Element(None)), Some(vec![BrokerCommand::Reconnect]));
    for _ in 0..7 {
        assert_eq!(
            forwarder.step(BrokerEvent::ConnectFailed),
            Some(vec![BrokerCommand::Wait(500), BrokerCommand::Reconnect])
        );
        assert_eq!(forwarder.step(BrokerEvent::Element(Some(command(b"early")))), None);
    }
    assert_eq!(
        forwarder.step(BrokerEvent::Connected),
        Some(vec![BrokerCommand::Subscribe(subscription())])
    );
    assert_eq!(forwarder.step(BrokerEvent::Element(Some(command(b"early")))), None);
    assert_eq!(forwarder.step(granted()), Some(vec![BrokerCommand::Poll]));
    assert_eq!(
        forwarder.step(BrokerEvent::Element(Some(command(b"late")))),
        Some(vec![BrokerCommand::Send(b"late".to_vec()), BrokerCommand::Poll])
    );
}

#[test]
fn run_sends_each_command_once_and_in_order() {
    let mut forwarder = InboundForwarder::new();
    let other = Message::new("agent/other".to_string(), b"skip".to_vec(), Qos::AtMostOnce);
    let events = vec![
        BrokerEvent::Connected,
        granted(),
        BrokerEvent::Element(Some(command(b"one"))),
        BrokerEvent::Element(Some(other)),
        BrokerEvent::Element(Some(command(b"two"))),
        BrokerEvent::Element(None),
        BrokerEvent::ConnectFailed,
        BrokerEvent::Connected,
        granted(),
        BrokerEvent::Element(Some(command(b"two"))),
        BrokerEvent::Element(Some(command(b""))),
    ];
    let mut all = forwarder.start().unwrap();
    for event in events {
        all.extend(forwarder.step(event).unwrap());
    }
    assert_eq!(
        sent(&all),
        vec![b"one".to_vec(), b"two".to_vec(), b"two".to_vec(), Vec::new()]
    );
}

#[test]
fn every_answer_ends_with_one_awaited_command() {
    let mut forwarder = InboundForwarder::new();
    let events = vec![
        BrokerEvent::Connected,
        granted(),
        BrokerEvent::Element(Some(command(b"one"))),
        BrokerEvent::Element(None),
        BrokerEvent::ConnectFailed,
        BrokerEvent::Connected,
        BrokerEvent::Subscribed(SubscribeReply::Failed),
    ];
    let mut answers = vec![forwarder.start().unwrap()];
    for event in events {
        answers.push(forwarder.step(event).unwrap());
    }
    let awaited = |c: &BrokerCommand| {
        matches!(
            c,
            BrokerCommand::Connect(_)
                | BrokerCommand::Reconnect
                | BrokerCommand::Subscribe(_)
                | BrokerCommand::Poll
                | BrokerCommand::Abort(_)
        )
    };
    for answer in &answers {
        let (last, before) = answer.split_last().unwrap();
        assert!(awaited(last));
        assert!(before.iter().all(|c| !awaited(c)));
    }
    assert_eq!(answers.last().unwrap().last(), Some(&BrokerCommand::Abort(LinkError::Subscribe)));
}

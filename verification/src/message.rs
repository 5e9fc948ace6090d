//! The values that travel through the bridge.

use vstd::prelude::*;

verus! {

/// Delivery guarantee of a message or a subscription.
#[derive(Clone, Copy, Debug, PartialEq, Eq, Structural)]
pub enum Qos {
    /// Delivered at most once: no acknowledgement, no retransmission.
    AtMostOnce,
}

impl Qos {
    /// The numeric level by which a broker knows this guarantee.
    pub fn level(&self) -> (level: i32)
        ensures
            level == self.spec_level(),
    {
        match self {
            Qos::AtMostOnce => 0,
        }
    }

    /// The numeric level by which a broker knows this guarantee.
    pub open spec fn spec_level(&self) -> int {
        match self {
            Qos::AtMostOnce => 0,
        }
    }
}

/// Mathematical content of a [`Message`].
pub struct MessageView {
    pub topic: Seq<char>,
    pub payload: Seq<u8>,
    pub qos: Qos,
}

/// A payload addressed to a topic. Its parts cannot be changed once it is
/// built.
#[derive(Clone, Debug, PartialEq, Eq)]
pub struct Message {
    topic: String,
    payload: Vec<u8>,
    qos: Qos,
}

impl View for Message {
    type V = MessageView;

    closed spec fn view(&self) -> MessageView {
        MessageView { topic: self.topic@, payload: self.payload@, qos: self.qos }
    }
}

impl Message {
    /// Builds a message from its three parts.
    pub fn new(topic: String, payload: Vec<u8>, qos: Qos) -> (message: Message)
        ensures
            message@ == (MessageView { topic: topic@, payload: payload@, qos }),
    {
        Message { topic, payload, qos }
    }

    /// The topic that the message is addressed to.
    pub fn topic(&self) -> (topic: &str)
        ensures
            topic@ == self@.topic,
    {
        self.topic.as_str()
    }

    /// The bytes that the message carries.
    pub fn payload(&self) -> (payload: &[u8])
        ensures
            payload@ == self@.payload,
    {
        self.payload.as_slice()
    }

    /// The delivery guarantee of the message.
    pub fn qos(&self) -> (qos: Qos)
        ensures
            qos == self@.qos,
    {
        self.qos
    }

    /// Takes the message apart.
    pub fn into_parts(self) -> (parts: (String, Vec<u8>, Qos))
        ensures
            parts.0@ == self@.topic,
            parts.1@ == self@.payload,
            parts.2 == self@.qos,
    {
        (self.topic, self.payload, self.qos)
    }
}

/// The one subscription that the bridge keeps at the broker.
#[derive(Clone, Debug, PartialEq, Eq)]
pub struct Subscription {
    topic: String,
    qos: Qos,
}

/// Mathematical content of a [`Subscription`].
pub struct SubscriptionView {
    pub topic: Seq<char>,
    pub qos: Qos,
}

impl View for Subscription {
    type V = SubscriptionView;

    closed spec fn view(&self) -> SubscriptionView {
        SubscriptionView { topic: self.topic@, qos: self.qos }
    }
}

impl Subscription {
    /// Builds a subscription from its two parts.
    pub fn new(topic: String, qos: Qos) -> (subscription: Subscription)
        ensures
            subscription@ == (SubscriptionView { topic: topic@, qos }),
    {
        Subscription { topic, qos }
    }

    /// The topic that is subscribed to.
    pub fn topic(&self) -> (topic: &str)
        ensures
            topic@ == self@.topic,
    {
        self.topic.as_str()
    }

    /// The delivery guarantee that is asked for.
    pub fn qos(&self) -> (qos: Qos)
        ensures
            qos == self@.qos,
    {
        self.qos
    }
}

/// How a connection to the broker is opened.
#[derive(Clone, Copy, Debug, PartialEq, Eq, Structural)]
pub struct ConnectOptions {
    /// Seconds between keep-alive probes.
    pub keep_alive_secs: u64,
    /// Whether the broker forgets the session when the connection ends.
    pub clean_session: bool,
}

} // verus!

//! What the client tells the broker: who it is, what it listens to and what
//! it sends. All of it is fixed.

use vstd::prelude::*;
use vstd::string::*;

verus! {

/// The broker's TCP port.
pub const BROKER_PORT: u16 = 1883;

/// Seconds of silence after which the connection pings the broker.
pub const KEEP_ALIVE_SECS: u64 = 5;

/// How many requests may wait for the connection at a time.
pub const REQUEST_CAPACITY: usize = 10;

/// The delivery guarantee asked for a message.
#[derive(Clone, Copy, Debug, PartialEq, Eq, Structural)]
pub enum QoS {
    AtMostOnce,
    AtLeastOnce,
    ExactlyOnce,
}

/// How to reach the broker.
#[derive(Clone, Debug, PartialEq, Eq)]
pub struct BrokerSettings {
    pub client_id: String,
    pub host: String,
    pub port: u16,
    pub keep_alive_secs: u64,
    pub request_capacity: usize,
}

/// `BrokerSettings` as contracts see them.
pub struct BrokerSettingsView {
    pub client_id: Seq<char>,
    pub host: Seq<char>,
    pub port: u16,
    pub keep_alive_secs: u64,
    pub request_capacity: usize,
}

impl View for BrokerSettings {
    type V = BrokerSettingsView;

    open spec fn view(&self) -> BrokerSettingsView {
        BrokerSettingsView {
            client_id: self.client_id@,
            host: self.host@,
            port: self.port,
            keep_alive_secs: self.keep_alive_secs,
            request_capacity: self.request_capacity,
        }
    }
}

/// A request to receive what is published on a topic.
#[derive(Clone, Debug, PartialEq, Eq)]
pub struct Subscription {
    pub topic: String,
    pub qos: QoS,
}

/// A `Subscription` as contracts see it.
pub struct SubscriptionView {
    pub topic: Seq<char>,
    pub qos: QoS,
}

impl View for Subscription {
    type V = SubscriptionView;

    open spec fn view(&self) -> SubscriptionView {
        SubscriptionView { topic: self.topic@, qos: self.qos }
    }
}

/// A message to hand to the broker.
#[derive(Clone, Debug, PartialEq, Eq)]
pub struct Publication {
    pub topic: String,
    pub qos: QoS,
    pub retain: bool,
    pub payload: String,
}

/// A `Publication` as contracts see it.
pub struct PublicationView {
    pub topic: Seq<char>,
    pub qos: QoS,
    pub retain: bool,
    pub payload: Seq<char>,
}

impl View for Publication {
    type V = PublicationView;

    open spec fn view(&self) -> PublicationView {
        PublicationView {
            topic: self.topic@,
            qos: self.qos,
            retain: self.retain,
            payload: self.payload@,
        }
    }
}

/// The topic that readings are published on and received from.
pub open spec fn topic_text() -> Seq<char> {
    "linuxdays/workshop"@
}

/// The settings of the one broker that the client talks to.
pub open spec fn fixed_settings() -> BrokerSettingsView {
    BrokerSettingsView {
        client_id: "linux-days-4188"@,
        host: "test.mosquitto.org"@,
        port: BROKER_PORT,
        keep_alive_secs: KEEP_ALIVE_SECS,
        request_capacity: REQUEST_CAPACITY,
    }
}

/// The one subscription of the client: best effort, on the readings' topic.
pub open spec fn fixed_subscription() -> SubscriptionView {
    SubscriptionView { topic: topic_text(), qos: QoS::AtMostOnce }
}

/// The message that carries `payload`: acknowledged delivery on the readings'
/// topic, not retained by the broker.
pub open spec fn publication_of(payload: Seq<char>) -> PublicationView {
    PublicationView { topic: topic_text(), qos: QoS::AtLeastOnce, retain: false, payload }
}

pub fn broker_settings() -> (s: BrokerSettings)
    ensures
        s@ == fixed_settings(),
{
    BrokerSettings {
        client_id: String::from_str("linux-days-4188"),
        host: String::from_str("test.mosquitto.org"),
        port: BROKER_PORT,
        keep_alive_secs: KEEP_ALIVE_SECS,
        request_capacity: REQUEST_CAPACITY,
    }
}

pub fn subscription() -> (s: Subscription)
    ensures
        s@ == fixed_subscription(),
{
    Subscription { topic: String::from_str("linuxdays/workshop"), qos: QoS::AtMostOnce }
}

pub fn publication(payload: String) -> (p: Publication)
    ensures
        p@ == publication_of(payload@),
{
    Publication {
        topic: String::from_str("linuxdays/workshop"),
        qos: QoS::AtLeastOnce,
        retain: false,
        payload,
    }
}

} // verus!

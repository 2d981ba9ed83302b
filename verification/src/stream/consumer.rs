//! The consumer side of the message broker: where batches are read back, and
//! what is done with each message that arrives.

use vstd::prelude::*;
use crate::config::Config;
use crate::stream::Events;

verus! {

/// The consumer group under which batches are read.
pub const GROUP_ID: &'static str = "workers";

/// Why the consumer could not be built.
#[derive(Debug)]
pub enum Error {
    /// A setting is missing.
    Config(crate::config::Error),
    /// The broker's client refused; the text is its report.
    Kafka(String),
    /// A payload could not be read.
    Deserialization,
}

impl Error {
    /// What `message` returns.
    pub open spec fn description(&self) -> Seq<char> {
        match self {
            Error::Config(_) => "config error"@,
            Error::Kafka(report) => "unknown connector: "@ + report@,
            Error::Deserialization => "deserialization error"@,
        }
    }

    /// The error's description.
    pub fn message(&self) -> (text: String)
        ensures
            text@ == self.description(),
    {
        match self {
            Error::Config(_) => "config error".to_owned(),
            Error::Kafka(report) => "unknown connector: ".to_owned().concat(report.as_str()),
            Error::Deserialization => "deserialization error".to_owned(),
        }
    }
}

/// Something that reads one message from the broker and deals with it.
pub trait StreamConsumer {
    /// Waits for one message and deals with it.
    fn consume(&self);
}

/// Something that takes the batches read from the broker.
pub trait EventsConsumer {
    /// Takes one batch.
    fn consume(&self, events: &Events);
}

/// Where batches are read from: the broker to connect to, the topic to
/// subscribe to, and the consumer group.
#[derive(Debug, PartialEq, Eq)]
pub struct KafkaStreamConsumer {
    /// The setting `stream.kafka.broker`.
    pub broker: String,
    /// The setting `stream.kafka.topic`.
    pub topic: String,
    /// The consumer group: `GROUP_ID`.
    pub group_id: String,
}

/// What a message that arrived carries.
#[derive(Debug, PartialEq, Eq)]
pub enum Payload {
    /// The payload's bytes.
    Bytes(Vec<u8>),
    /// The payload could not be viewed; the text is the client's report.
    Unreadable(String),
    /// The message has no payload.
    Missing,
}

/// What is to be done with what arrived.
#[derive(Debug, PartialEq, Eq)]
pub enum Handling {
    /// Nothing arrived: nothing is done, nothing is committed.
    Skip,
    /// Read a batch from these bytes, hand it on if they hold one, and
    /// commit the message.
    Decode(Vec<u8>),
    /// Log this warning and commit the message.
    Warn(String),
}

/// The warning for a payload that cannot be used.
pub open spec fn warning_of(payload: Payload) -> Seq<char> {
    match payload {
        Payload::Unreadable(report) => "Error while fetching message payload: "@ + report@,
        _ => "Error while fetching message payload: Unknown error"@,
    }
}

/// Decides what is done with what arrived from the broker (`None`: the
/// receive failed). A message is committed whatever it carries.
pub fn handle(arrived: Option<Payload>) -> (handling: Handling)
    ensures
        match arrived {
            None => handling == Handling::Skip,
            Some(Payload::Bytes(bytes)) => handling == Handling::Decode(bytes),
            Some(payload) => handling matches Handling::Warn(text) && text@ == warning_of(payload),
        },
{
    match arrived {
        None => Handling::Skip,
        Some(Payload::Bytes(bytes)) => Handling::Decode(bytes),
        Some(Payload::Unreadable(report)) => Handling::Warn(
            "Error while fetching message payload: ".to_owned().concat(report.as_str()),
        ),
        Some(Payload::Missing) => Handling::Warn(
            "Error while fetching message payload: Unknown error".to_owned(),
        ),
    }
}

impl Handling {
    /// Whether the message is committed afterwards: every message that
    /// arrived is.
    pub fn commits(&self) -> (commit: bool)
        ensures
            commit == !(*self is Skip),
    {
        match self {
            Handling::Skip => false,
            _ => true,
        }
    }
}

/// What reading a payload means for the consumer: the batch to hand on, or
/// the warning to log.
pub fn decoded(read: Result<Events, String>) -> (outcome: Result<Events, String>)
    ensures
        match read {
            Ok(events) => outcome == Ok::<Events, String>(events),
            Err(report) => outcome matches Err(text) && text@
                == "Error while deserializing message payload: "@ + report@,
        },
{
    match read {
        Ok(events) => Ok(events),
        Err(report) => Err(
            "Error while deserializing message payload: ".to_owned().concat(report.as_str()),
        ),
    }
}

/// Builds the description of the consumer from the configuration.
pub struct StreamConsumerBuilder {}

impl StreamConsumerBuilder {
    /// Reads the broker and the topic. Either missing is a configuration
    /// error.
    pub fn build(config: &Config) -> (built: Result<KafkaStreamConsumer, Error>)
        ensures
            match built {
                Ok(consumer) => {
                    &&& config.has_str("stream.kafka.broker"@)
                    &&& config.has_str("stream.kafka.topic"@)
                    &&& consumer.broker@ == config.strings()["stream.kafka.broker"@]
                    &&& consumer.topic@ == config.strings()["stream.kafka.topic"@]
                    &&& consumer.group_id@ == GROUP_ID@
                },
                Err(Error::Config(_)) => !config.has_str("stream.kafka.broker"@)
                    || !config.has_str("stream.kafka.topic"@),
                Err(_) => false,
            },
    {
        let broker = match config.get_str("stream.kafka.broker") {
            Ok(broker) => broker,
            Err(error) => {
                return Err(Error::Config(error));
            },
        };
        match config.get_str("stream.kafka.topic") {
            Ok(topic) => Ok(KafkaStreamConsumer { broker, topic, group_id: GROUP_ID.to_owned() }),
            Err(error) => Err(Error::Config(error)),
        }
    }
}

} // verus!

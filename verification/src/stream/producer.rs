//! The producer side of the message broker: where batches are published.

use vstd::prelude::*;
use crate::config::Config;
use crate::stream::Events;

verus! {

/// The producer could not be built: a setting is missing, or the broker's
/// client refused the settings.
#[derive(Debug, PartialEq, Eq)]
pub struct Error {}

/// Something that publishes admitted batches to the broker. A failed
/// publish is the publisher's to report; the batch is not offered again.
pub trait StreamProducer {
    /// Publishes one batch, keyed by its token.
    fn produce(&self, events: &Events);
}

/// Where batches are published: the topic and the broker to connect to.
#[derive(Debug, PartialEq, Eq)]
pub struct KafkaStreamProducer {
    /// The setting `stream.kafka.topic`.
    pub topic: String,
    /// The setting `stream.kafka.broker`.
    pub broker: String,
}

/// Whether `built` is what the configuration says of the producer: the topic
/// and the broker, where both settings are there, and a refusal where one is
/// missing.
pub open spec fn described_by(built: Result<KafkaStreamProducer, Error>, config: Config) -> bool {
    match built {
        Ok(producer) => {
            &&& config.has_str("stream.kafka.topic"@)
            &&& config.has_str("stream.kafka.broker"@)
            &&& producer.topic@ == config.strings()["stream.kafka.topic"@]
            &&& producer.broker@ == config.strings()["stream.kafka.broker"@]
        },
        Err(_) => !config.has_str("stream.kafka.topic"@) || !config.has_str(
            "stream.kafka.broker"@,
        ),
    }
}

/// Builds the description of the producer from the configuration.
pub struct StreamProducerBuilder {}

impl StreamProducerBuilder {
    /// Reads the topic and the broker. Succeeds exactly where both settings
    /// are there.
    pub fn build(config: &Config) -> (built: Result<KafkaStreamProducer, Error>)
        ensures
            described_by(built, *config),
    {
        let topic = match config.get_str("stream.kafka.topic") {
            Ok(topic) => topic,
            Err(_) => {
                return Err(Error {  });
            },
        };
        match config.get_str("stream.kafka.broker") {
            Ok(broker) => Ok(KafkaStreamProducer { topic, broker }),
            Err(_) => Err(Error {  }),
        }
    }
}

impl Config {
    /// The producer that the configuration describes: see
    /// `StreamProducerBuilder::build`.
    pub fn get_stream_producer(&self) -> (built: Result<KafkaStreamProducer, Error>)
        ensures
            described_by(built, *self),
    {
        StreamProducerBuilder::build(self)
    }

    /// The same as `get_stream_producer`.
    pub fn get_kafka_stream_producer(&self) -> (built: Result<KafkaStreamProducer, Error>)
        ensures
            described_by(built, *self),
    {
        StreamProducerBuilder::build(self)
    }
}

} // verus!

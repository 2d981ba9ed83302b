//! The remote cache tier: a key/value store reached over the network. This
//! module holds what is decided around a round trip: where a key lives, and
//! what the store's answer means.

use vstd::prelude::*;
use crate::config::Config;

verus! {

/// The namespace under which every key is stored.
pub const NAMESPACE: &'static str = "ucdp";

/// The name of the bin that holds a record's payload.
pub const PAYLOAD_BIN: &'static str = "0";

/// Why the remote tier could not be built or has no usable answer.
#[derive(Debug)]
pub enum AerospikeDaoError {
    /// The store's client failed; the text is its report.
    Aerospike(String),
    /// The record exists but holds no payload.
    ItemNotFound,
    /// The payload is not a blob; the text renders what was found.
    InvalidType(String),
    /// A setting is missing.
    Config(crate::config::Error),
}

impl AerospikeDaoError {
    /// What `message` returns.
    pub open spec fn description(&self) -> Seq<char> {
        match self {
            AerospikeDaoError::Aerospike(_) => "aerospike error"@,
            AerospikeDaoError::ItemNotFound => "item not found"@,
            AerospikeDaoError::InvalidType(found) => "invalid type: "@ + found@,
            AerospikeDaoError::Config(_) => "config error"@,
        }
    }

    /// The error's description.
    pub fn message(&self) -> (text: String)
        ensures
            text@ == self.description(),
    {
        match self {
            AerospikeDaoError::Aerospike(_) => "aerospike error".to_owned(),
            AerospikeDaoError::ItemNotFound => "item not found".to_owned(),
            AerospikeDaoError::InvalidType(found) => "invalid type: ".to_owned().concat(
                found.as_str(),
            ),
            AerospikeDaoError::Config(_) => "config error".to_owned(),
        }
    }
}

/// The tier's answer to "do you hold this key": the payload, where there is
/// one, and the seconds it has left to live, where the store tells.
#[derive(Debug, PartialEq, Eq)]
pub struct AerospikeDaoResult {
    pub value: Option<Vec<u8>>,
    pub ttl: Option<u64>,
}

/// What the payload bin of a record holds.
#[derive(Debug, PartialEq, Eq)]
pub enum Bin {
    /// A blob of bytes.
    Blob(Vec<u8>),
    /// Anything else, rendered as text.
    Other(String),
}

/// What came back from one read of the store.
#[derive(Debug, PartialEq, Eq)]
pub enum Fetched {
    /// A record, with its payload bin if it has one and its remaining life.
    Record { bin: Option<Bin>, ttl: Option<u64> },
    /// The store holds no record under the key.
    KeyNotFound,
    /// The read failed; the text is the client's report.
    Failed(String),
}

/// What `AerospikeDaoResult::from_fetched` makes of a read.
pub open spec fn outcome_of(fetched: Fetched) -> Result<AerospikeDaoResult, AerospikeDaoError> {
    match fetched {
        Fetched::Record { bin: Some(Bin::Blob(bytes)), ttl } => Ok(
            AerospikeDaoResult { value: Some(bytes), ttl },
        ),
        Fetched::Record { bin: Some(Bin::Other(found)), ttl } => Err(
            AerospikeDaoError::InvalidType(found),
        ),
        Fetched::Record { bin: None, ttl } => Err(AerospikeDaoError::ItemNotFound),
        Fetched::KeyNotFound => Ok(AerospikeDaoResult { value: None, ttl: None }),
        Fetched::Failed(report) => Err(AerospikeDaoError::Aerospike(report)),
    }
}

impl AerospikeDaoResult {
    /// Whether the tier holds nothing under the key.
    pub open spec fn is_miss(&self) -> bool {
        self.value is None
    }

    /// Reads the store's answer. A missing record is an ordinary answer
    /// without payload; a record without payload bin, a payload of another
    /// type and a failed read are errors.
    pub fn from_fetched(fetched: Fetched) -> (outcome: Result<
        AerospikeDaoResult,
        AerospikeDaoError,
    >)
        ensures
            outcome == outcome_of(fetched),
    {
        match fetched {
            Fetched::Record { bin, ttl } => match bin {
                Some(Bin::Blob(bytes)) => Ok(AerospikeDaoResult { value: Some(bytes), ttl }),
                Some(Bin::Other(found)) => Err(AerospikeDaoError::InvalidType(found)),
                None => Err(AerospikeDaoError::ItemNotFound),
            },
            Fetched::KeyNotFound => Ok(AerospikeDaoResult { value: None, ttl: None }),
            Fetched::Failed(report) => Err(AerospikeDaoError::Aerospike(report)),
        }
    }
}

/// Where the remote tier lives: the host to connect to and the set that
/// holds its records.
#[derive(Debug, PartialEq, Eq)]
pub struct AerospikeDaoImpl {
    /// The setting `aerospike.set`.
    pub set_name: String,
    /// The setting `aerospike.host`.
    pub host: String,
}

/// Builds the description of the remote tier from the configuration.
pub struct AerospikeDaoBuilder {}

impl AerospikeDaoBuilder {
    /// Reads the set and the host. Either missing is a configuration error.
    pub fn build(config: &Config) -> (built: Result<AerospikeDaoImpl, AerospikeDaoError>)
        ensures
            match built {
                Ok(dao) => {
                    &&& config.has_str("aerospike.set"@)
                    &&& config.has_str("aerospike.host"@)
                    &&& dao.set_name@ == config.strings()["aerospike.set"@]
                    &&& dao.host@ == config.strings()["aerospike.host"@]
                },
                Err(AerospikeDaoError::Config(_)) => !config.has_str("aerospike.set"@)
                    || !config.has_str("aerospike.host"@),
                Err(_) => false,
            },
    {
        let set_name = match config.get_str("aerospike.set") {
            Ok(set_name) => set_name,
            Err(error) => {
                return Err(AerospikeDaoError::Config(error));
            },
        };
        match config.get_str("aerospike.host") {
            Ok(host) => Ok(AerospikeDaoImpl { set_name, host }),
            Err(error) => Err(AerospikeDaoError::Config(error)),
        }
    }
}

} // verus!

//! A cache in front of a directory: what a cache's answer means, and which
//! cache a configuration asks for.

use vstd::prelude::*;
use crate::config::Config;
use crate::dal::aerospike_dao::{Bin, Fetched};

verus! {

/// Why the cache could not be built or has no usable answer.
#[derive(Debug)]
pub enum Error {
    /// The store's client failed; the text is its report.
    Aerospike(String),
    /// A setting is missing.
    Config(crate::config::Error),
    /// The configuration names a cache that does not exist.
    UnknownConnector(String),
    /// The payload is not a blob; the text renders what was found.
    InvalidType(String),
    /// The record exists but holds no payload.
    ItemNotFound,
}

impl Error {
    /// What `message` returns.
    pub open spec fn description(&self) -> Seq<char> {
        match self {
            Error::Aerospike(_) => "aerospike error"@,
            Error::Config(_) => "config error"@,
            Error::UnknownConnector(name) => "unknown connector: "@ + name@,
            Error::InvalidType(found) => "invalid type: "@ + found@,
            Error::ItemNotFound => "item not found"@,
        }
    }

    /// The error's description.
    pub fn message(&self) -> (text: String)
        ensures
            text@ == self.description(),
    {
        match self {
            Error::Aerospike(_) => "aerospike error".to_owned(),
            Error::Config(_) => "config error".to_owned(),
            Error::UnknownConnector(name) => "unknown connector: ".to_owned().concat(
                name.as_str(),
            ),
            Error::InvalidType(found) => "invalid type: ".to_owned().concat(found.as_str()),
            Error::ItemNotFound => "item not found".to_owned(),
        }
    }
}

/// A cache's answer to "do you hold this key": the payload, where there is
/// one, and the seconds it has left to live, where the cache tells.
#[derive(Debug, PartialEq, Eq)]
pub struct CacheEntry {
    pub value: Option<Vec<u8>>,
    pub ttl: Option<u64>,
}

/// What `CacheEntry::from_fetched` makes of a read.
pub open spec fn entry_of(fetched: Fetched) -> Result<CacheEntry, Error> {
    match fetched {
        Fetched::Record { bin: Some(Bin::Blob(bytes)), ttl } => Ok(
            CacheEntry { value: Some(bytes), ttl },
        ),
        Fetched::Record { bin: Some(Bin::Other(found)), ttl } => Err(Error::InvalidType(found)),
        Fetched::Record { bin: None, ttl } => Err(Error::ItemNotFound),
        Fetched::KeyNotFound => Ok(CacheEntry { value: None, ttl: None }),
        Fetched::Failed(report) => Err(Error::Aerospike(report)),
    }
}

impl CacheEntry {
    /// Whether the cache holds nothing under the key.
    pub open spec fn is_miss(&self) -> bool {
        self.value is None
    }

    /// Reads the store's answer. A missing record is an ordinary answer
    /// without payload; a record without payload bin, a payload of another
    /// type and a failed read are errors.
    pub fn from_fetched(fetched: Fetched) -> (outcome: Result<CacheEntry, Error>)
        ensures
            outcome == entry_of(fetched),
    {
        match fetched {
            Fetched::Record { bin, ttl } => match bin {
                Some(Bin::Blob(bytes)) => Ok(CacheEntry { value: Some(bytes), ttl }),
                Some(Bin::Other(found)) => Err(Error::InvalidType(found)),
                None => Err(Error::ItemNotFound),
            },
            Fetched::KeyNotFound => Ok(CacheEntry { value: None, ttl: None }),
            Fetched::Failed(report) => Err(Error::Aerospike(report)),
        }
    }
}

/// Where a remote cache lives: the host to connect to and the set that
/// holds its records.
#[derive(Debug, PartialEq, Eq)]
pub struct AerospikeCacheDao {
    pub set_name: String,
    pub host: String,
}

/// Builds the description of a cache from the configuration.
pub struct CacheBuilder {}

impl CacheBuilder {
    /// Reads which cache stands in front of the directory whose settings
    /// begin with `prefix`: the setting `<prefix>.cache`. A missing setting
    /// is a configuration error; a name other than `aerospike` is an unknown
    /// connector. The set is the setting `<prefix>.aerospike.set`, or
    /// `default`; the host is the setting `cache.aerospike.host`, or
    /// `127.0.0.1:3000`.
    pub fn build(config: &Config, prefix: &str) -> (built: Result<AerospikeCacheDao, Error>)
        ensures
            match built {
                Ok(dao) => {
                    &&& config.has_str(prefix@ + ".cache"@)
                    &&& config.strings()[prefix@ + ".cache"@] == "aerospike"@
                    &&& dao.set_name@ == config.str_or(prefix@ + ".aerospike.set"@, "default"@)
                    &&& dao.host@ == config.str_or("cache.aerospike.host"@, "127.0.0.1:3000"@)
                },
                Err(Error::Config(_)) => !config.has_str(prefix@ + ".cache"@),
                Err(Error::UnknownConnector(name)) => {
                    &&& config.has_str(prefix@ + ".cache"@)
                    &&& name@ == config.strings()[prefix@ + ".cache"@]
                    &&& name@ != "aerospike"@
                },
                Err(_) => false,
            },
    {
        let cache_type_key = prefix.to_owned().concat(".cache");
        let cache_type = match config.get_str(cache_type_key.as_str()) {
            Ok(cache_type) => cache_type,
            Err(error) => {
                return Err(Error::Config(error));
            },
        };
        if cache_type == "aerospike".to_owned() {
            let set_name_key = prefix.to_owned().concat(".aerospike.set");
            let set_name = config.get_str_or(set_name_key.as_str(), "default");
            let host = config.get_str_or("cache.aerospike.host", "127.0.0.1:3000");
            Ok(AerospikeCacheDao { set_name, host })
        } else {
            Err(Error::UnknownConnector(cache_type))
        }
    }
}

} // verus!

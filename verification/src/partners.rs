//! The partner directory in its plain form: the contract's registry, with
//! one cache in front of it where the configuration asks for one.

use vstd::prelude::*;
use crate::cache::{AerospikeCacheDao, CacheBuilder, CacheEntry};
use crate::config::Config;
use crate::contract::{address_or_zero, EthereumContractQueriesBuilder};
use crate::dal::ethereum_dao::{parse_address, parsed_address};
use crate::dal::ethereum_dao::{EthereumDao, EthereumDaoError};
use crate::dal::partners::{partner_from_contract, text_of, without_trailing_nuls, PartnerView};

pub use crate::dal::partners::Partner;

verus! {

/// Why a partner could not be resolved, or the directory not be built.
#[derive(Debug)]
pub enum Error {
    /// The cache failed or could not be built.
    Cache(crate::cache::Error),
    /// A setting is missing.
    Config(crate::config::Error),
    /// The registry failed.
    Contract(crate::contract::Error),
    /// A cached payload could not be read; the text is the reader's report.
    Deserialization(String),
    /// The configuration names a connector that does not exist.
    UnknownConnector(String),
    /// Nothing is known of this partner.
    PartnerNotFound(String),
    /// The named argument is malformed.
    Parameter(String),
}

impl Error {
    /// What `message` returns.
    pub open spec fn description(&self) -> Seq<char> {
        match self {
            Error::Cache(_) => "cache error"@,
            Error::Config(_) => "config error"@,
            Error::Contract(_) => "contract error"@,
            Error::Deserialization(_) => "deserialization error"@,
            Error::UnknownConnector(name) => "unknown connector: "@ + name@,
            Error::PartnerNotFound(id) => "partner not found: "@ + id@,
            Error::Parameter(name) => "Parameter error: "@ + name@,
        }
    }

    /// The error's description.
    pub fn message(&self) -> (text: String)
        ensures
            text@ == self.description(),
    {
        match self {
            Error::Cache(_) => "cache error".to_owned(),
            Error::Config(_) => "config error".to_owned(),
            Error::Contract(_) => "contract error".to_owned(),
            Error::Deserialization(_) => "deserialization error".to_owned(),
            Error::UnknownConnector(name) => "unknown connector: ".to_owned().concat(
                name.as_str(),
            ),
            Error::PartnerNotFound(id) => "partner not found: ".to_owned().concat(id.as_str()),
            Error::Parameter(name) => "Parameter error: ".to_owned().concat(name.as_str()),
        }
    }
}

/// The key under which the registry knows a partner: its identifier parsed
/// as an address. A malformed identifier is a parameter error that names
/// the argument; the registry is then not asked.
pub fn registry_key(address: &str) -> (key: Result<[u8; 20], Error>)
    ensures
        match key {
            Ok(parsed) => parsed_address(address@) == Some(parsed@),
            Err(Error::Parameter(name)) => parsed_address(address@) is None && name@
                == "address"@,
            Err(_) => false,
        },
{
    match parse_address(address) {
        Some(parsed) => Ok(parsed),
        None => Err(Error::Parameter("address".to_owned())),
    }
}

/// What the registry's answer means for the directory: the partner it
/// describes, or the registry's failure.
pub fn partner_from_registry(answer: Result<(Vec<u8>, bool), crate::contract::Error>) -> (resolved:
    Result<Partner, Error>)
    ensures
        match answer {
            Ok((name, enabled)) => resolved is Ok && resolved->Ok_0@ == (PartnerView {
                name: without_trailing_nuls(text_of(name@)),
                enabled,
            }),
            Err(failure) => resolved matches Err(Error::Contract(reported)) && reported
                == failure,
        },
{
    match answer {
        Ok((name, enabled)) => Ok(partner_from_contract(name, enabled)),
        Err(failure) => Err(Error::Contract(failure)),
    }
}

/// What the cache's answer means for the directory: the payload to read the
/// partner from, or why there is none. A cache that holds nothing under the
/// address reports the partner as not found.
pub fn cached_payload(address: &str, answer: Result<CacheEntry, crate::cache::Error>) -> (payload:
    Result<Vec<u8>, Error>)
    ensures
        match answer {
            Ok(CacheEntry { value: Some(bytes), ttl }) => payload == Ok::<Vec<u8>, Error>(bytes),
            Ok(CacheEntry { value: None, ttl }) => payload matches Err(Error::PartnerNotFound(id))
                && id@ == address@,
            Err(failure) => payload matches Err(Error::Cache(reported)) && reported == failure,
        },
{
    match answer {
        Ok(entry) => match entry.value {
            Some(bytes) => Ok(bytes),
            None => Err(Error::PartnerNotFound(address.to_owned())),
        },
        Err(failure) => Err(Error::Cache(failure)),
    }
}

/// What reading a cached payload means for the directory: the partner, or a
/// deserialization error with the reader's report.
pub fn partner_from_payload(read: Result<Partner, String>) -> (resolved: Result<Partner, Error>)
    ensures
        match read {
            Ok(partner) => resolved == Ok::<Partner, Error>(partner),
            Err(report) => resolved matches Err(Error::Deserialization(reported)) && reported
                == report,
        },
{
    match read {
        Ok(partner) => Ok(partner),
        Err(report) => Err(Error::Deserialization(report)),
    }
}

/// The directory as the configuration asks for it: the registry, and the
/// cache in front of it, if there is one.
#[derive(Debug)]
pub struct Partners {
    pub dao: EthereumDao,
    pub cache: Option<AerospikeCacheDao>,
}

impl Partners {
    /// The number of tiers of the directory: the registry alone, or the
    /// cache and the registry behind it.
    pub fn tiers(&self) -> (count: usize)
        ensures
            count == (if self.cache is Some {
                2usize
            } else {
                1usize
            }),
    {
        match self.cache {
            Some(_) => 2,
            None => 1,
        }
    }
}

/// Builds the directory from the configuration.
pub struct PartnersBuilder {}

impl PartnersBuilder {
    /// Builds the directory that the setting `data.partners.connector`
    /// names. A missing setting is a configuration error; a name other than
    /// `ethereum` is an unknown connector. Where the setting
    /// `data.partners.cache` is there, the cache it names stands in front of
    /// the registry; a cache that cannot be built is a cache error. Where no
    /// transport to the registry's endpoint can be made, that is a contract
    /// error.
    pub fn build(config: &Config) -> (built: Result<Partners, Error>)
        ensures
            match built {
                Ok(partners) => {
                    &&& config.has_str("data.partners.connector"@)
                    &&& config.strings()["data.partners.connector"@] == "ethereum"@
                    &&& partners.dao.function_name@ == "partners"@
                    &&& partners.dao.network@ == config.str_or(
                        "data.partners.ethereum.network"@,
                        "http://localhost:9545"@,
                    )
                    &&& partners.dao.contract@ == address_or_zero(
                        config.str_or(
                            "data.partners.ethereum.contract"@,
                            "0x0000000000000000000000000000000000000000"@,
                        ),
                    )
                    &&& partners.cache is Some <==> config.has_str("data.partners"@ + ".cache"@)
                    &&& partners.cache matches Some(cache) ==> {
                        &&& config.strings()["data.partners"@ + ".cache"@] == "aerospike"@
                        &&& cache.set_name@ == config.str_or(
                            "data.partners"@ + ".aerospike.set"@,
                            "default"@,
                        )
                        &&& cache.host@ == config.str_or(
                            "cache.aerospike.host"@,
                            "127.0.0.1:3000"@,
                        )
                    }
                },
                Err(Error::Config(_)) => !config.has_str("data.partners.connector"@),
                Err(Error::UnknownConnector(name)) => {
                    &&& config.has_str("data.partners.connector"@)
                    &&& name@ == config.strings()["data.partners.connector"@]
                    &&& name@ != "ethereum"@
                },
                Err(Error::Contract(_)) => {
                    &&& config.has_str("data.partners.connector"@)
                    &&& config.strings()["data.partners.connector"@] == "ethereum"@
                },
                Err(Error::Cache(failure)) => {
                    &&& config.has_str("data.partners.connector"@)
                    &&& config.strings()["data.partners.connector"@] == "ethereum"@
                    &&& config.has_str("data.partners"@ + ".cache"@)
                    &&& config.strings()["data.partners"@ + ".cache"@] != "aerospike"@
                    &&& failure matches crate::cache::Error::UnknownConnector(name)
                    &&& name@ == config.strings()["data.partners"@ + ".cache"@]
                },
                Err(_) => false,
            },
    {
        let connector = match config.get_str("data.partners.connector") {
            Ok(connector) => connector,
            Err(error) => {
                return Err(Error::Config(error));
            },
        };
        if connector == "ethereum".to_owned() {
            let dao = match EthereumContractQueriesBuilder::build(config) {
                Ok(dao) => dao,
                Err(failure) => {
                    let report = match failure {
                        EthereumDaoError::Network(report) => report,
                        other => other.message(),
                    };
                    return Err(Error::Contract(crate::contract::Error::Contract(report)));
                },
            };
            let cache_key = "data.partners".to_owned().concat(".cache");
            let cache = match config.get_str(cache_key.as_str()) {
                Ok(_) => match CacheBuilder::build(config, "data.partners") {
                    Ok(cache) => Some(cache),
                    Err(failure) => {
                        return Err(Error::Cache(failure));
                    },
                },
                Err(_) => None,
            };
            Ok(Partners { dao, cache })
        } else {
            Err(Error::UnknownConnector(connector))
        }
    }
}

} // verus!

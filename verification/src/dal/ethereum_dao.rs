//! The authoritative tier: a read-only query of one function of a fixed
//! smart contract. This module holds what is decided before and after the
//! query: which contract and function to ask, and how a key is parsed.

use vstd::prelude::*;
use crate::config::Config;

verus! {

/// The 20 bytes that a text denotes as an address, where it denotes one.
pub uninterp spec fn parsed_address(text: Seq<char>) -> Option<Seq<u8>>;

/// `FromStr` of `web3::types::Address`. The contract claims only that the
/// outcome is a function of the text: `parsed_address` names it.
#[verifier::external_body]
fn address_from_str(text: &str) -> (parsed: Option<[u8; 20]>)
    ensures
        parsed is Some <==> parsed_address(text@) is Some,
        parsed is Some ==> parsed_address(text@) == Some(parsed->Some_0@),
{
    match text.parse::<web3::types::Address>() {
        Ok(address) => Some(address.0),
        Err(_) => None,
    }
}

/// The HTTP transport of the `web3` crate, opaque to the verifier.
#[verifier::external_type_specification]
#[verifier::external_body]
pub struct ExHttp(web3::transports::Http);

/// `web3::transports::Http::new`: a transport to the endpoint at `url`, or
/// the crate's report of why there is none. Nothing is claimed of the
/// outcome: the crate refuses a text that is no URL, and it builds its HTTP
/// client from what the environment holds.
#[verifier::external_body]
fn http_transport(url: &str) -> (made: Result<web3::transports::Http, String>) {
    web3::transports::Http::new(url).map_err(|error| error.to_string())
}

/// Parses an address: 20 bytes written as hexadecimal digits.
pub fn parse_address(text: &str) -> (parsed: Option<[u8; 20]>)
    ensures
        match parsed {
            Some(address) => parsed_address(text@) == Some(address@),
            None => parsed_address(text@) is None,
        },
{
    address_from_str(text)
}

/// Why the authoritative tier could not be built or asked.
#[derive(Debug)]
pub enum EthereumDaoError {
    /// The contract's interface could not be loaded.
    Creation(String),
    /// The query failed.
    Execution(String),
    /// A setting is missing.
    Config(crate::config::Error),
    /// The named setting or argument is malformed.
    Parameter(String),
    /// The network endpoint cannot be used.
    Network(String),
}

impl EthereumDaoError {
    /// The error's description.
    pub fn message(&self) -> (text: String)
        ensures
            text@ == self.description(),
    {
        match self {
            EthereumDaoError::Creation(_) => "contract creation error".to_owned(),
            EthereumDaoError::Execution(_) => "contract execution error".to_owned(),
            EthereumDaoError::Config(_) => "config error".to_owned(),
            EthereumDaoError::Parameter(name) => "contract parameter error: ".to_owned().concat(
                name.as_str(),
            ),
            EthereumDaoError::Network(_) => "network error".to_owned(),
        }
    }

    /// What `message` returns.
    pub open spec fn description(&self) -> Seq<char> {
        match self {
            EthereumDaoError::Creation(_) => "contract creation error"@,
            EthereumDaoError::Execution(_) => "contract execution error"@,
            EthereumDaoError::Config(_) => "config error"@,
            EthereumDaoError::Parameter(name) => "contract parameter error: "@ + name@,
            EthereumDaoError::Network(_) => "network error"@,
        }
    }
}

/// Which contract function to query, and where.
#[derive(Debug)]
pub struct EthereumDao {
    /// The network endpoint: the setting `ethereum.network`.
    pub network: String,
    /// The transport to that endpoint.
    pub transport: web3::transports::Http,
    /// The contract's address: the setting `ethereum.contract`, parsed.
    pub contract: [u8; 20],
    /// The contract function that is queried.
    pub function_name: String,
}

impl EthereumDao {
    /// Puts the tier together once it is known whether there is a transport
    /// to its endpoint: with one, the tier; without, a network error with
    /// the report of why.
    pub fn with_transport(
        network: String,
        made: Result<web3::transports::Http, String>,
        contract: [u8; 20],
        function_name: String,
    ) -> (built: Result<EthereumDao, EthereumDaoError>)
        ensures
            match made {
                Ok(transport) => built matches Ok(dao) && dao == (EthereumDao {
                    network,
                    transport,
                    contract,
                    function_name,
                }),
                Err(report) => built matches Err(EthereumDaoError::Network(reported)) && reported
                    == report,
            },
    {
        match made {
            Ok(transport) => Ok(EthereumDao { network, transport, contract, function_name }),
            Err(report) => Err(EthereumDaoError::Network(report)),
        }
    }

    /// Makes the transport to `network` and puts the tier together: the
    /// tier, or a network error where no transport can be made.
    pub fn connect(network: String, contract: [u8; 20], function_name: String) -> (built: Result<
        EthereumDao,
        EthereumDaoError,
    >)
        ensures
            match built {
                Ok(dao) => dao.network == network && dao.contract == contract
                    && dao.function_name == function_name,
                Err(error) => error is Network,
            },
    {
        let made = http_transport(network.as_str());
        EthereumDao::with_transport(network, made, contract, function_name)
    }
}

/// Builds the description of the authoritative tier from the configuration.
pub struct EthereumDaoBuilder {}

/// Whether the configuration holds what the authoritative tier needs: the
/// endpoint and a contract address that parses.
pub open spec fn ethereum_configured(config: Config) -> bool {
    &&& config.has_str("ethereum.network"@)
    &&& config.has_str("ethereum.contract"@)
    &&& parsed_address(config.strings()["ethereum.contract"@]) is Some
}

impl EthereumDaoBuilder {
    /// Reads the endpoint and the contract address and makes the transport
    /// to the endpoint. A missing setting is a configuration error, the
    /// endpoint being looked at first; an address that does not parse is a
    /// parameter error that names the setting. Where both are in order, the
    /// tier is built unless no transport can be made, which is a network
    /// error.
    pub fn build(config: &Config, function_name: &str) -> (built: Result<
        EthereumDao,
        EthereumDaoError,
    >)
        ensures
            match built {
                Ok(dao) => {
                    &&& ethereum_configured(*config)
                    &&& dao.network@ == config.strings()["ethereum.network"@]
                    &&& parsed_address(config.strings()["ethereum.contract"@]) == Some(
                        dao.contract@,
                    )
                    &&& dao.function_name@ == function_name@
                },
                Err(EthereumDaoError::Config(_)) => !config.has_str("ethereum.network"@)
                    || !config.has_str("ethereum.contract"@),
                Err(EthereumDaoError::Parameter(name)) => {
                    &&& config.has_str("ethereum.network"@)
                    &&& config.has_str("ethereum.contract"@)
                    &&& parsed_address(config.strings()["ethereum.contract"@]) is None
                    &&& name@ == "ethereum.contract"@
                },
                Err(EthereumDaoError::Network(_)) => ethereum_configured(*config),
                Err(_) => false,
            },
    {
        let network = match config.get_str("ethereum.network") {
            Ok(network) => network,
            Err(error) => {
                return Err(EthereumDaoError::Config(error));
            },
        };
        let address = match config.get_str("ethereum.contract") {
            Ok(address) => address,
            Err(error) => {
                return Err(EthereumDaoError::Config(error));
            },
        };
        match parse_address(address.as_str()) {
            Some(contract) => EthereumDao::connect(network, contract, function_name.to_owned()),
            None => Err(EthereumDaoError::Parameter("ethereum.contract".to_owned())),
        }
    }
}

} // verus!

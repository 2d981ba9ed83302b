//! The contract's partner registry, asked directly: which contract to ask,
//! and what its answer holds.

use vstd::prelude::*;
use crate::config::Config;
use crate::dal::ethereum_dao::{parse_address, parsed_address, EthereumDao, EthereumDaoError};

verus! {

/// Why the contract has no answer.
#[derive(Debug, PartialEq, Eq)]
pub enum Error {
    /// The query failed; the text is the client's report.
    Contract(String),
}

impl Error {
    /// The error's description.
    pub fn message(&self) -> (text: String)
        ensures
            text@ == "contract error"@,
    {
        "contract error".to_owned()
    }
}

/// The address that a text denotes; the zero address where it denotes none.
pub open spec fn address_or_zero(text: Seq<char>) -> Seq<u8> {
    match parsed_address(text) {
        Some(address) => address,
        None => Seq::new(20, |i: int| 0u8),
    }
}

/// Parses an address; a text that is none stands for the zero address.
pub fn parse_address_or_default(text: &str) -> (address: [u8; 20])
    ensures
        address@ == address_or_zero(text@),
{
    match parse_address(text) {
        Some(address) => address,
        None => {
            let zero = [0u8; 20];
            assert(zero@ =~= Seq::new(20, |i: int| 0u8));
            zero
        },
    }
}

/// What the registry's answer holds for the directory: the partner's name
/// field and whether it is enabled. The third field is not used.
pub fn partner_fields(answer: Result<(Vec<u8>, bool, bool), String>) -> (fields: Result<
    (Vec<u8>, bool),
    Error,
>)
    ensures
        match answer {
            Ok((name, enabled, _)) => fields == Ok::<(Vec<u8>, bool), Error>((name, enabled)),
            Err(report) => fields == Err::<(Vec<u8>, bool), Error>(Error::Contract(report)),
        },
{
    match answer {
        Ok((name, enabled, _)) => Ok((name, enabled)),
        Err(report) => Err(Error::Contract(report)),
    }
}

/// Builds the description of the registry from the configuration.
pub struct EthereumContractQueriesBuilder {}

impl EthereumContractQueriesBuilder {
    /// Reads the endpoint, the setting `data.partners.ethereum.network` or
    /// `http://localhost:9545`, and the contract's address, the setting
    /// `data.partners.ethereum.contract` or the zero address; an address
    /// that does not parse stands for the zero address too. The function
    /// asked is `partners`. The registry is built unless no transport to the
    /// endpoint can be made, which is a network error.
    pub fn build(config: &Config) -> (built: Result<EthereumDao, EthereumDaoError>)
        ensures
            match built {
                Ok(dao) => {
                    &&& dao.network@ == config.str_or(
                        "data.partners.ethereum.network"@,
                        "http://localhost:9545"@,
                    )
                    &&& dao.contract@ == address_or_zero(
                        config.str_or(
                            "data.partners.ethereum.contract"@,
                            "0x0000000000000000000000000000000000000000"@,
                        ),
                    )
                    &&& dao.function_name@ == "partners"@
                },
                Err(error) => error is Network,
            },
    {
        let network = config.get_str_or("data.partners.ethereum.network", "http://localhost:9545");
        let address = config.get_str_or(
            "data.partners.ethereum.contract",
            "0x0000000000000000000000000000000000000000",
        );
        EthereumDao::connect(
            network,
            parse_address_or_default(address.as_str()),
            "partners".to_owned(),
        )
    }
}

} // verus!

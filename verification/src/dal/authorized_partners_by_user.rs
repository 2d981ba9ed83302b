//! The authorization directory: whether a user has authorized a partner.

use vstd::prelude::*;
use crate::config::Config;
use crate::dal::ethereum_dao::{
    ethereum_configured, parse_address, parsed_address, EthereumDao, EthereumDaoBuilder,
    EthereumDaoError,
};

verus! {

/// Why an authorization could not be resolved, or the directory not be
/// built.
#[derive(Debug)]
pub enum Error {
    /// The named argument is malformed.
    Parameter(String),
    /// The authoritative tier failed.
    Contract(EthereumDaoError),
    /// A setting is missing.
    Config(crate::config::Error),
    /// The configuration names a connector that does not exist.
    UnknownConnector(String),
}

impl Error {
    /// What `message` returns.
    pub open spec fn description(&self) -> Seq<char> {
        match self {
            Error::Parameter(name) => "Parameter error: "@ + name@,
            Error::Contract(_) => "contract error"@,
            Error::Config(_) => "config error"@,
            Error::UnknownConnector(name) => "unknown connector: "@ + name@,
        }
    }

    /// The error's description.
    pub fn message(&self) -> (text: String)
        ensures
            text@ == self.description(),
    {
        match self {
            Error::Parameter(name) => "Parameter error: ".to_owned().concat(name.as_str()),
            Error::Contract(_) => "contract error".to_owned(),
            Error::Config(_) => "config error".to_owned(),
            Error::UnknownConnector(name) => "unknown connector: ".to_owned().concat(
                name.as_str(),
            ),
        }
    }
}

/// The key under which the contract knows an authorization: the user's and
/// the partner's identifier, each parsed as an address, as one pair. A
/// malformed identifier is a parameter error that names the argument, the
/// user's being looked at first.
pub fn authorization_key(user_id: &str, partner_id: &str) -> (key: Result<
    ([u8; 20], [u8; 20]),
    Error,
>)
    ensures
        match key {
            Ok((user, partner)) => parsed_address(user_id@) == Some(user@) && parsed_address(
                partner_id@,
            ) == Some(partner@),
            Err(Error::Parameter(name)) => if parsed_address(user_id@) is None {
                name@ == "user_id"@
            } else {
                parsed_address(partner_id@) is None && name@ == "partner_id"@
            },
            Err(_) => false,
        },
{
    let user = match parse_address(user_id) {
        Some(user) => user,
        None => {
            return Err(Error::Parameter("user_id".to_owned()));
        },
    };
    match parse_address(partner_id) {
        Some(partner) => Ok((user, partner)),
        None => Err(Error::Parameter("partner_id".to_owned())),
    }
}

/// What the authoritative tier's answer means for the directory: the
/// authorization, or the tier's failure.
pub fn authorization_from_query(answer: Result<bool, EthereumDaoError>) -> (resolved: Result<
    bool,
    Error,
>)
    ensures
        match answer {
            Ok(authorized) => resolved == Ok::<bool, Error>(authorized),
            Err(failure) => resolved matches Err(Error::Contract(reported)) && reported == failure,
        },
{
    match answer {
        Ok(authorized) => Ok(authorized),
        Err(failure) => Err(Error::Contract(failure)),
    }
}

/// The tier of the authorization directory, as the configuration asks for it.
#[derive(Debug)]
pub enum AuthorizationTier {
    /// The contract, queried for the function `authorizedPartnersByUser`.
    Ethereum(EthereumDao),
}

/// Builds the authorization directory from the configuration.
pub struct AuthorizedPartnersByUserBuilder {}

impl AuthorizedPartnersByUserBuilder {
    /// Builds the tier that the setting
    /// `data.authorized_partners_by_user.connector` names. A missing setting
    /// is a configuration error; a name other than `ethereum` is an unknown
    /// connector; a contract tier that cannot be built, for want of a
    /// setting, of a contract address that parses or of a transport to the
    /// endpoint, is a contract error.
    pub fn build(config: &Config) -> (built: Result<AuthorizationTier, Error>)
        ensures
            match built {
                Ok(AuthorizationTier::Ethereum(dao)) => {
                    &&& config.has_str("data.authorized_partners_by_user.connector"@)
                    &&& config.strings()["data.authorized_partners_by_user.connector"@]
                        == "ethereum"@
                    &&& config.has_str("ethereum.network"@)
                    &&& config.has_str("ethereum.contract"@)
                    &&& dao.network@ == config.strings()["ethereum.network"@]
                    &&& parsed_address(config.strings()["ethereum.contract"@]) == Some(
                        dao.contract@,
                    )
                    &&& dao.function_name@ == "authorizedPartnersByUser"@
                },
                Err(Error::Config(_)) => !config.has_str(
                    "data.authorized_partners_by_user.connector"@,
                ),
                Err(Error::UnknownConnector(name)) => {
                    &&& config.has_str("data.authorized_partners_by_user.connector"@)
                    &&& name@ == config.strings()["data.authorized_partners_by_user.connector"@]
                    &&& name@ != "ethereum"@
                },
                Err(Error::Contract(failure)) => {
                    &&& config.has_str("data.authorized_partners_by_user.connector"@)
                    &&& config.strings()["data.authorized_partners_by_user.connector"@]
                        == "ethereum"@
                    &&& if ethereum_configured(*config) {
                        failure is Network
                    } else if config.has_str("ethereum.network"@) && config.has_str(
                        "ethereum.contract"@,
                    ) {
                        failure matches EthereumDaoError::Parameter(setting) && setting@
                            == "ethereum.contract"@
                    } else {
                        failure is Config
                    }
                },
                Err(Error::Parameter(_)) => false,
            },
    {
        let connector = match config.get_str("data.authorized_partners_by_user.connector") {
            Ok(connector) => connector,
            Err(error) => {
                return Err(Error::Config(error));
            },
        };
        if connector == "ethereum".to_owned() {
            match EthereumDaoBuilder::build(config, "authorizedPartnersByUser") {
                Ok(dao) => Ok(AuthorizationTier::Ethereum(dao)),
                Err(failure) => Err(Error::Contract(failure)),
            }
        } else {
            Err(Error::UnknownConnector(connector))
        }
    }
}

} // verus!

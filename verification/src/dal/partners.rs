//! The partner directory: what a partner is, how the answer of each kind of
//! tier becomes a partner or a reason why not, and which tiers a
//! configuration asks for.

use vstd::prelude::*;
use vstd::utf8::{decode_utf8, encode_utf8, valid_utf8};
use crate::config::{texts_of, Config};
use crate::dal::cascade::Cascade;
use crate::dal::aerospike_dao::{AerospikeDaoBuilder, AerospikeDaoError, AerospikeDaoImpl, AerospikeDaoResult};
use crate::dal::ethereum_dao::{parse_address, parsed_address, EthereumDao, EthereumDaoBuilder, EthereumDaoError};
use crate::dal::in_memory_dao::{
    ttl_of, ttl_valid, InMemoryDaoBuilder, InMemoryDaoError, InMemoryDaoImpl, InMemoryDaoResult,
    TTL_SETTING,
};

verus! {

/// A registered partner.
#[derive(Debug, PartialEq, Eq)]
pub struct Partner {
    pub name: String,
    pub enabled: bool,
}

/// The mathematical content of a partner.
pub ghost struct PartnerView {
    pub name: Seq<char>,
    pub enabled: bool,
}

impl View for Partner {
    type V = PartnerView;

    open spec fn view(&self) -> PartnerView {
        PartnerView { name: self.name@, enabled: self.enabled }
    }
}

impl Clone for Partner {
    fn clone(&self) -> (copy: Self)
        ensures
            copy@ == self@,
    {
        Partner { name: self.name.clone(), enabled: self.enabled }
    }
}

/// Why a partner could not be resolved, or the directory not be built.
#[derive(Debug)]
pub enum Error {
    /// A setting is missing.
    Config(crate::config::Error),
    /// The authoritative tier failed.
    EthereumDao(EthereumDaoError),
    /// The remote cache tier failed.
    AerospikeDao(AerospikeDaoError),
    /// The in-process tier has no answer.
    InMemoryDao(InMemoryDaoError),
    /// A cached payload could not be read; the text is the reader's report.
    Deserialization(String),
    /// The configuration names a connector that does not exist.
    UnknownConnector(String),
    /// The named argument is malformed.
    Parameter(String),
    /// The tier holds nothing for this partner identifier.
    PartnerNotFound(String),
}

impl Error {
    /// What `message` returns.
    pub open spec fn description(&self) -> Seq<char> {
        match self {
            Error::Config(_) => "config error"@,
            Error::EthereumDao(_) => "ethereum dao error"@,
            Error::AerospikeDao(_) => "aerospike dao error"@,
            Error::InMemoryDao(_) => "in memory dao error"@,
            Error::Deserialization(_) => "deserialization error"@,
            Error::UnknownConnector(name) => "unknown connector: "@ + name@,
            Error::Parameter(name) => "Parameter error: "@ + name@,
            Error::PartnerNotFound(id) => "partner not found: "@ + id@,
        }
    }

    /// The error's description.
    pub fn message(&self) -> (text: String)
        ensures
            text@ == self.description(),
    {
        match self {
            Error::Config(_) => "config error".to_owned(),
            Error::EthereumDao(_) => "ethereum dao error".to_owned(),
            Error::AerospikeDao(_) => "aerospike dao error".to_owned(),
            Error::InMemoryDao(_) => "in memory dao error".to_owned(),
            Error::Deserialization(_) => "deserialization error".to_owned(),
            Error::UnknownConnector(name) => "unknown connector: ".to_owned().concat(
                name.as_str(),
            ),
            Error::Parameter(name) => "Parameter error: ".to_owned().concat(name.as_str()),
            Error::PartnerNotFound(id) => "partner not found: ".to_owned().concat(id.as_str()),
        }
    }
}

/// The key under which the contract knows a partner: its identifier parsed
/// as an address. A malformed identifier is a parameter error that names
/// the argument.
pub fn partner_key(partner_id: &str) -> (key: Result<[u8; 20], Error>)
    ensures
        match key {
            Ok(address) => parsed_address(partner_id@) == Some(address@),
            Err(Error::Parameter(name)) => parsed_address(partner_id@) is None && name@
                == "partner_id"@,
            Err(_) => false,
        },
{
    match parse_address(partner_id) {
        Some(address) => Ok(address),
        None => Err(Error::Parameter("partner_id".to_owned())),
    }
}

/// Begins the lookup of a partner through a directory of `tiers` tiers. The
/// identifier is parsed first: a malformed one is a parameter error, and
/// nothing is asked of any tier. A directory without tiers knows no
/// connector. Else the lookup begins at the first tier, and the key under
/// which the contract knows the partner comes with it.
pub fn begin_lookup(partner_id: &str, tiers: usize) -> (begun: Result<
    ([u8; 20], Cascade<Partner, Error>),
    Error,
>)
    ensures
        match begun {
            Ok((key, state)) => {
                &&& parsed_address(partner_id@) == Some(key@)
                &&& tiers > 0
                &&& state == crate::dal::cascade::begun::<Partner, Error>(tiers)
            },
            Err(Error::Parameter(name)) => parsed_address(partner_id@) is None && name@
                == "partner_id"@,
            Err(Error::UnknownConnector(name)) => parsed_address(partner_id@) is Some && tiers
                == 0 && name@ == Seq::<char>::empty(),
            Err(_) => false,
        },
{
    let key = match partner_key(partner_id) {
        Ok(key) => key,
        Err(error) => {
            return Err(error);
        },
    };
    match Cascade::start(tiers) {
        Some(state) => Ok((key, state)),
        None => Err(Error::UnknownConnector(String::new())),
    }
}

/// A text without the NUL characters at its end.
pub open spec fn without_trailing_nuls(text: Seq<char>) -> Seq<char>
    decreases text.len(),
{
    if text.len() > 0 && text.last() == '\0' {
        without_trailing_nuls(text.drop_last())
    } else {
        text
    }
}

/// The text that bytes spell in UTF-8; the empty text where they spell none.
pub open spec fn text_of(bytes: Seq<u8>) -> Seq<char> {
    if valid_utf8(bytes) {
        decode_utf8(bytes)
    } else {
        Seq::empty()
    }
}

/// `String::from_utf8`. The contract claims what std documents: the call
/// succeeds exactly on valid UTF-8, and the string then has the given bytes.
#[verifier::external_body]
fn string_from_utf8(bytes: Vec<u8>) -> (text: Option<String>)
    ensures
        text is Some <==> valid_utf8(bytes@),
        text is Some ==> encode_utf8(text->Some_0@) == bytes@,
{
    match String::from_utf8(bytes) {
        Ok(text) => Some(text),
        Err(_) => None,
    }
}

/// Removes the NUL characters at the end of a text.
pub fn trim_trailing_nuls(text: &str) -> (trimmed: String)
    ensures
        trimmed@ == without_trailing_nuls(text@),
{
    let mut end: usize = text.unicode_len();
    assert(text@.subrange(0, end as int) =~= text@);
    loop
        invariant
            end <= text@.len(),
            without_trailing_nuls(text@) == without_trailing_nuls(text@.subrange(0, end as int)),
        ensures
            end <= text@.len(),
            without_trailing_nuls(text@) == text@.subrange(0, end as int),
        decreases end,
    {
        if end == 0 {
            break ;
        }
        let last = text.get_char(end - 1);
        if last != '\0' {
            break ;
        }
        proof {
            let kept = text@.subrange(0, end as int);
            assert(kept.last() == '\0');
            assert(kept.drop_last() =~= text@.subrange(0, end - 1));
        }
        end -= 1;
    }
    text.substring_char(0, end).to_owned()
}

/// The partner that the contract's answer describes: the name is the name
/// field read as UTF-8, empty if it is none, without the NUL padding at its
/// end.
pub fn partner_from_contract(name: Vec<u8>, enabled: bool) -> (partner: Partner)
    ensures
        partner@ == (PartnerView { name: without_trailing_nuls(text_of(name@)), enabled }),
{
    broadcast use vstd::utf8::encode_utf8_decode_utf8;

    let ghost bytes = name@;
    let text = match string_from_utf8(name) {
        Some(text) => text,
        None => String::new(),
    };
    assert(text@ == text_of(bytes));
    Partner { name: trim_trailing_nuls(text.as_str()), enabled }
}

/// What the authoritative tier's answer means for the directory: the
/// partner it describes, or the tier's failure.
pub fn partner_from_query(answer: Result<(Vec<u8>, bool, bool), EthereumDaoError>) -> (resolved:
    Result<Partner, Error>)
    ensures
        match answer {
            Ok((name, enabled, _)) => resolved is Ok && resolved->Ok_0@ == (PartnerView {
                name: without_trailing_nuls(text_of(name@)),
                enabled,
            }),
            Err(failure) => resolved matches Err(Error::EthereumDao(reported)) && reported
                == failure,
        },
{
    match answer {
        Ok((name, enabled, _)) => Ok(partner_from_contract(name, enabled)),
        Err(failure) => Err(Error::EthereumDao(failure)),
    }
}

/// What the remote cache tier's answer means for the directory: the payload
/// to read the partner from, or why there is none. A tier that holds nothing
/// under the identifier reports the partner as not found.
pub fn cached_payload(partner_id: &str, answer: Result<AerospikeDaoResult, AerospikeDaoError>) -> (payload:
    Result<Vec<u8>, Error>)
    ensures
        match answer {
            Ok(AerospikeDaoResult { value: Some(bytes), ttl }) => payload == Ok::<Vec<u8>, Error>(
                bytes,
            ),
            Ok(AerospikeDaoResult { value: None, ttl }) => payload matches Err(
                Error::PartnerNotFound(id),
            ) && id@ == partner_id@,
            Err(failure) => payload matches Err(Error::AerospikeDao(reported)) && reported
                == failure,
        },
{
    match answer {
        Ok(entry) => match entry.value {
            Some(bytes) => Ok(bytes),
            None => Err(Error::PartnerNotFound(partner_id.to_owned())),
        },
        Err(failure) => Err(Error::AerospikeDao(failure)),
    }
}

/// What reading a cached payload means for the directory: the partner, or a
/// deserialization error with the reader's report.
pub fn partner_from_payload(read: Result<Partner, String>) -> (resolved: Result<Partner, Error>)
    ensures
        match read {
            Ok(partner) => resolved == Ok::<Partner, Error>(partner),
            Err(report) => resolved matches Err(Error::Deserialization(reported)) && reported
                == report,
        },
{
    match read {
        Ok(partner) => Ok(partner),
        Err(report) => Err(Error::Deserialization(report)),
    }
}

/// What the in-process tier's answer means for the directory: a copy of the
/// partner it holds, or the tier's reason for having none.
pub fn partner_from_memory(answer: Result<&InMemoryDaoResult<Partner>, InMemoryDaoError>) -> (resolved:
    Result<Partner, Error>)
    ensures
        match answer {
            Ok(fact) => resolved is Ok && resolved->Ok_0@ == fact.value@,
            Err(failure) => resolved matches Err(Error::InMemoryDao(reported)) && reported
                == failure,
        },
{
    match answer {
        Ok(fact) => Ok(fact.value.clone()),
        Err(failure) => Err(Error::InMemoryDao(failure)),
    }
}

/// One tier of the partner directory, as the configuration asks for it.
pub enum PartnersTier {
    /// The contract, queried for the function `partners`.
    Ethereum(EthereumDao),
    /// The remote cache.
    Aerospike(AerospikeDaoImpl),
    /// The in-process cache, empty when built.
    InMemory(InMemoryDaoImpl<Partner>),
}

impl PartnersTier {
    /// Whether a value found further down is written into this tier: the
    /// caches keep what they are given, the contract is never written to.
    pub fn caches(&self) -> (caches: bool)
        ensures
            caches == !(*self is Ethereum),
    {
        match self {
            PartnersTier::Ethereum(_) => false,
            _ => true,
        }
    }
}

/// Whether a connector of this name can be built from the configuration.
pub open spec fn buildable(connector: Seq<char>, config: Config) -> bool {
    if connector == "ethereum"@ {
        &&& config.has_str("ethereum.network"@)
        &&& config.has_str("ethereum.contract"@)
        &&& parsed_address(config.strings()["ethereum.contract"@]) is Some
    } else if connector == "aerospike"@ {
        config.has_str("aerospike.set"@) && config.has_str("aerospike.host"@)
    } else {
        connector == "in-memory"@ && ttl_valid(config)
    }
}

/// Whether `tier` is what the connector of this name is built as, where it
/// can be built.
pub open spec fn built_as(tier: PartnersTier, connector: Seq<char>, config: Config) -> bool {
    if connector == "ethereum"@ {
        &&& tier matches PartnersTier::Ethereum(dao)
        &&& dao.network@ == config.strings()["ethereum.network"@]
        &&& parsed_address(config.strings()["ethereum.contract"@]) == Some(dao.contract@)
        &&& dao.function_name@ == "partners"@
    } else if connector == "aerospike"@ {
        &&& tier matches PartnersTier::Aerospike(dao)
        &&& dao.set_name@ == config.strings()["aerospike.set"@]
        &&& dao.host@ == config.strings()["aerospike.host"@]
    } else {
        &&& tier matches PartnersTier::InMemory(dao)
        &&& dao@ == Map::<Seq<char>, InMemoryDaoResult<Partner>>::empty()
        &&& dao.time_to_live() == ttl_of(config)
    }
}

/// Whether `error` is what building the connector of this name reports,
/// where it cannot be built.
pub open spec fn refused_with(error: Error, connector: Seq<char>, config: Config) -> bool {
    if connector == "ethereum"@ {
        if config.has_str("ethereum.network"@) && config.has_str("ethereum.contract"@) {
            error matches Error::EthereumDao(EthereumDaoError::Parameter(name)) && name@
                == "ethereum.contract"@
        } else {
            error matches Error::EthereumDao(EthereumDaoError::Config(_))
        }
    } else if connector == "aerospike"@ {
        error matches Error::AerospikeDao(AerospikeDaoError::Config(_))
    } else if connector == "in-memory"@ {
        error matches Error::InMemoryDao(InMemoryDaoError::Parameter(name)) && name@
            == TTL_SETTING@
    } else {
        error matches Error::UnknownConnector(name) && name@ == connector
    }
}

/// Whether `error` is a refusal of the connector of this name: what building
/// it reports where it cannot be built, or, for the contract, a network error
/// where no transport to its endpoint could be made.
pub open spec fn refusal_of(error: Error, connector: Seq<char>, config: Config) -> bool {
    if buildable(connector, config) {
        connector == "ethereum"@ && error matches Error::EthereumDao(EthereumDaoError::Network(_))
    } else {
        refused_with(error, connector, config)
    }
}

/// Whether `chain` is the directory that the connector names describe: one
/// tier for each name, in the order of the names.
pub open spec fn chain_of(chain: Seq<PartnersTier>, connectors: Seq<String>, config: Config) -> bool {
    &&& chain.len() == connectors.len()
    &&& forall|i: int| 0 <= i < connectors.len() ==> #[trigger] built_at(chain, connectors, config, i)
}

/// Whether the tier at the place `i` of `chain` is what the name at that
/// place is built as.
pub open spec fn built_at(
    chain: Seq<PartnersTier>,
    connectors: Seq<String>,
    config: Config,
    i: int,
) -> bool {
    buildable(connectors[i]@, config) && built_as(chain[i], connectors[i]@, config)
}

/// Whether `error` is what building the directory reports: for no name at
/// all an unknown connector without a name; else the refusal of a name
/// before which every name can be built.
pub open spec fn chain_refused_with(error: Error, connectors: Seq<String>, config: Config) -> bool {
    if connectors.len() == 0 {
        error matches Error::UnknownConnector(name) && name@ == Seq::<char>::empty()
    } else {
        exists|first: int|
            {
                &&& 0 <= first < connectors.len()
                &&& forall|i: int| 0 <= i < first ==> buildable(#[trigger] connectors[i]@, config)
                &&& #[trigger] refusal_of(error, connectors[first]@, config)
            }
    }
}

/// Whether `built` is what building the directory for the connector names
/// yields: the chain they describe, or the refusal.
pub open spec fn built_from(
    built: Result<Vec<PartnersTier>, Error>,
    connectors: Seq<String>,
    config: Config,
) -> bool {
    match built {
        Ok(chain) => connectors.len() > 0 && chain_of(chain@, connectors, config),
        Err(error) => chain_refused_with(error, connectors, config),
    }
}

/// Tells whether two texts are the same.
fn same_text(left: &str, right: &str) -> (same: bool)
    ensures
        same == (left@ == right@),
{
    left.to_owned() == right.to_owned()
}

/// Builds the partner directory from the configuration.
pub struct PartnersBuilder {}

impl PartnersBuilder {
    /// Builds the tier that a connector name stands for: `ethereum`,
    /// `aerospike` or `in-memory`. Any other name is an unknown connector.
    pub fn build_dao(connector: &str, config: &Config) -> (built: Result<PartnersTier, Error>)
        ensures
            match built {
                Ok(tier) => buildable(connector@, *config) && built_as(tier, connector@, *config),
                Err(error) => refusal_of(error, connector@, *config),
            },
    {
        if same_text(connector, "ethereum") {
            match EthereumDaoBuilder::build(config, "partners") {
                Ok(dao) => Ok(PartnersTier::Ethereum(dao)),
                Err(error) => Err(Error::EthereumDao(error)),
            }
        } else if same_text(connector, "aerospike") {
            match AerospikeDaoBuilder::build(config) {
                Ok(dao) => Ok(PartnersTier::Aerospike(dao)),
                Err(error) => Err(Error::AerospikeDao(error)),
            }
        } else if same_text(connector, "in-memory") {
            match InMemoryDaoBuilder::<Partner>::build(config) {
                Ok(dao) => Ok(PartnersTier::InMemory(dao)),
                Err(error) => Err(Error::InMemoryDao(error)),
            }
        } else {
            Err(Error::UnknownConnector(connector.to_owned()))
        }
    }

    /// Builds one tier for each connector name, in order. An empty list is
    /// refused; so is a list with a name that is refused, with the refusal
    /// of the first such name.
    pub fn build_rec(connectors: &[String], config: &Config) -> (built: Result<
        Vec<PartnersTier>,
        Error,
    >)
        ensures
            built_from(built, connectors@, *config),
    {
        if connectors.len() == 0 {
            return Err(Error::UnknownConnector(String::new()));
        }
        let mut chain: Vec<PartnersTier> = Vec::new();
        let mut i: usize = 0;
        while i < connectors.len()
            invariant
                i <= connectors.len(),
                chain.len() == i,
                connectors@.len() > 0,
                forall|j: int| 0 <= j < i ==> #[trigger] built_at(chain@, connectors@, *config, j),
            decreases connectors.len() - i,
        {
            match PartnersBuilder::build_dao(connectors[i].as_str(), config) {
                Ok(tier) => {
                    let ghost before = chain@;
                    chain.push(tier);
                    assert forall|j: int| 0 <= j < i + 1 implies #[trigger] built_at(
                        chain@,
                        connectors@,
                        *config,
                        j,
                    ) by {
                        if j < i {
                            assert(built_at(before, connectors@, *config, j));
                            assert(chain@[j] == before[j]);
                        }
                    }
                },
                Err(error) => {
                    assert(chain_refused_with(error, connectors@, *config)) by {
                        let first = i as int;
                        assert forall|j: int| 0 <= j < first implies buildable(
                            #[trigger] connectors@[j]@,
                            *config,
                        ) by {
                            assert(built_at(chain@, connectors@, *config, j));
                        }
                        assert(refusal_of(error, connectors@[first]@, *config));
                    }
                    return Err(error);
                },
            }
            i += 1;
        }
        Ok(chain)
    }

    /// Builds the directory that the setting `data.partners.connectors`
    /// lists. A missing list is a configuration error; a list that is there
    /// is handed to `build_rec` as it was read, item for item: for a list of
    /// plain values, its texts in the configured order.
    pub fn build(config: &Config) -> (built: Result<Vec<PartnersTier>, Error>)
        ensures
            built matches Err(Error::Config(_)) <==> !config.has_str_vec(
                "data.partners.connectors"@,
            ),
            config.has_str_vec("data.partners.connectors"@) ==> exists|connectors: Seq<String>|
                connectors.len() == config.list_lens()["data.partners.connectors"@]
                    && #[trigger] built_from(built, connectors, *config),
            config.has_list("data.partners.connectors"@) ==> exists|connectors: Seq<String>|
                texts_of(connectors) == config.lists()["data.partners.connectors"@]
                    && #[trigger] built_from(built, connectors, *config),
    {
        match config.get_str_vec("data.partners.connectors") {
            Ok(connectors) => {
                let built = PartnersBuilder::build_rec(connectors.as_slice(), config);
                assert(built_from(built, connectors@, *config));
                built
            },
            Err(error) => Err(Error::Config(error)),
        }
    }
}

} // verus!

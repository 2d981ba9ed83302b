use ucdp_gateway::cache::{AerospikeCacheDao, CacheBuilder, Error as CacheError};
use ucdp_gateway::config::Config;
use ucdp_gateway::contract::EthereumContractQueriesBuilder;
use ucdp_gateway::dal::aerospike_dao::{AerospikeDaoBuilder, AerospikeDaoError, AerospikeDaoImpl};
use ucdp_gateway::dal::authorized_partners_by_user::{
    AuthorizationTier, AuthorizedPartnersByUserBuilder, Error as AuthorizationError,
};
use ucdp_gateway::dal::ethereum_dao::{EthereumDaoBuilder, EthereumDaoError};
use ucdp_gateway::dal::in_memory_dao::InMemoryDaoError;
use ucdp_gateway::dal::partners::{
    Error as DalPartnersError, Partner, PartnersBuilder, PartnersTier,
};
use ucdp_gateway::partners::{Error as PartnersError, PartnersBuilder as PlainPartnersBuilder};
use ucdp_gateway::stream::consumer::{Error as ConsumerError, StreamConsumerBuilder};
use ucdp_gateway::stream::producer::StreamProducerBuilder;

const ZERO_ADDRESS: &str = "0x0000000000000000000000000000000000000000";

fn config(json: &str) -> Config {
    Config::from_json(json).unwrap()
}

fn ethereum_section(network: Option<&str>, address: Option<&str>) -> String {
    let mut fields = Vec::new();
    if let Some(network) = network {
        fields.push(format!("\"network\": \"{}\"", network));
    }
    if let Some(address) = address {
        fields.push(format!("\"contract\": \"{}\"", address));
    }
    format!("\"ethereum\": {{{}}}", fields.join(", "))
}

fn ethereum_config(network: Option<&str>, address: Option<&str>) -> Config {
    config(&format!("{{{}}}", ethereum_section(network, address)))
}

fn partners_config(connectors: &[&str], rest: &str) -> Config {
    let names: Vec<String> = connectors.iter().map(|name| format!("\"{}\"", name)).collect();
    config(&format!(
        "{{\"data\": {{\"partners\": {{\"connectors\": [{}]}}}}{}}}",
        names.join(", "),
        rest
    ))
}

#[test]
fn cachebuilder_build_aerospike_ok() {
    let config = config("{\"prefix\": {\"cache\": \"aerospike\"}}");

    let res = CacheBuilder::build(&config, "prefix");
    assert!(res.is_ok());
    assert_eq!(
        res.unwrap(),
        AerospikeCacheDao { set_name: "default".into(), host: "127.0.0.1:3000".into() }
    );
}

#[test]
fn cachebuilder_build_unknown_err() {
    let config = config("{\"prefix\": {\"cache\": \"does not exist\"}}");

    let res = CacheBuilder::build(&config, "prefix");
    assert!(res.is_err());
    match res {
        Err(CacheError::UnknownConnector(name)) => assert_eq!(name, "does not exist"),
        _ => unreachable!(),
    }
}

#[test]
fn cachebuilder_build_missing_err() {
    let res = CacheBuilder::build(&config("{}"), "prefix");
    assert!(matches!(res, Err(CacheError::Config(_))));
}

#[test]
fn cachebuilder_build_reads_set_and_host() {
    let config = config(
        "{\"prefix\": {\"cache\": \"aerospike\", \"aerospike\": {\"set\": \"partners\"}}, \
         \"cache\": {\"aerospike\": {\"host\": \"10.0.0.1:3000\"}}}",
    );
    assert_eq!(
        CacheBuilder::build(&config, "prefix").unwrap(),
        AerospikeCacheDao { set_name: "partners".into(), host: "10.0.0.1:3000".into() }
    );
}

#[test]
fn aerospike_dao_builder_build_aerospike_ok() {
    let config = config("{\"aerospike\": {\"set\": \"default\", \"host\": \"http://aerospike\"}}");

    let res = AerospikeDaoBuilder::build(&config);
    assert!(res.is_ok());
    assert_eq!(
        res.unwrap(),
        AerospikeDaoImpl { set_name: "default".into(), host: "http://aerospike".into() }
    );
}

#[test]
fn aerospike_dao_builder_build_err_config() {
    let res = AerospikeDaoBuilder::build(&config("{}"));
    match res {
        Err(AerospikeDaoError::Config(_)) => (),
        _ => unreachable!(),
    }
}

#[test]
fn authorized_partners_by_user_builder_build_ok() {
    let config = config(&format!(
        "{{\"data\": {{\"authorized_partners_by_user\": {{\"connector\": \"ethereum\"}}}}, {}}}",
        ethereum_section(Some("http://ethereum"), Some(ZERO_ADDRESS))
    ));

    let res = AuthorizedPartnersByUserBuilder::build(&config);
    assert!(res.is_ok());
    let AuthorizationTier::Ethereum(dao) = res.unwrap();
    assert_eq!(dao.function_name, "authorizedPartnersByUser");
    assert_eq!(dao.network, "http://ethereum");
    assert_eq!(dao.contract, [0u8; 20]);
}

#[test]
fn authorized_partners_by_user_builder_build_err_missing_connector() {
    let res = AuthorizedPartnersByUserBuilder::build(&config("{}"));
    match res {
        Err(AuthorizationError::Config(_)) => (),
        _ => unreachable!(),
    }
}

#[test]
fn authorized_partners_by_user_builder_build_err_unknown_connector() {
    let config =
        config("{\"data\": {\"authorized_partners_by_user\": {\"connector\": \"unknown\"}}}");

    let res = AuthorizedPartnersByUserBuilder::build(&config);
    if let Err(AuthorizationError::UnknownConnector(reason)) = res {
        assert_eq!(reason, "unknown");
    } else {
        unreachable!();
    }
}

#[test]
fn authorized_partners_by_user_builder_build_err_contract() {
    let config =
        config("{\"data\": {\"authorized_partners_by_user\": {\"connector\": \"ethereum\"}}}");
    let res = AuthorizedPartnersByUserBuilder::build(&config);
    assert!(matches!(res, Err(AuthorizationError::Contract(EthereumDaoError::Config(_)))));
}

#[test]
fn ethereum_dao_builder_build_ok() {
    let config = ethereum_config(Some("http://ethereum"), Some(ZERO_ADDRESS));
    let res = EthereumDaoBuilder::build(&config, "function_name");
    assert!(res.is_ok());
    let dao = res.unwrap();
    assert_eq!(dao.network, "http://ethereum");
    assert_eq!(dao.contract, [0u8; 20]);
    assert_eq!(dao.function_name, "function_name");
}

#[test]
fn ethereum_dao_builder_build_parses_contract_address() {
    let config = ethereum_config(
        Some("http://ethereum"),
        Some("0xa80E74Ee52efc3D28CF3778d1B54B4dc0c23028b"),
    );
    let dao = EthereumDaoBuilder::build(&config, "partners").unwrap();
    assert_eq!(
        dao.contract,
        [
            0xa8, 0x0e, 0x74, 0xee, 0x52, 0xef, 0xc3, 0xd2, 0x8c, 0xf3, 0x77, 0x8d, 0x1b, 0x54,
            0xb4, 0xdc, 0x0c, 0x23, 0x02, 0x8b
        ]
    );
}

#[test]
fn ethereum_dao_builder_build_err_config() {
    let config = ethereum_config(None, None);
    let res = EthereumDaoBuilder::build(&config, "function_name");
    match res {
        Err(EthereumDaoError::Config(_)) => (),
        _ => unreachable!(),
    }
}

#[test]
fn ethereum_dao_builder_build_err_parameter() {
    let config = ethereum_config(Some("http://ethereum"), Some("not an address"));
    let res = EthereumDaoBuilder::build(&config, "function_name");
    if let Err(EthereumDaoError::Parameter(reason)) = res {
        assert_eq!(reason, "ethereum.contract");
    } else {
        unreachable!();
    }
}

#[test]
fn partnersbuilder_build_non_cached_ok_ethereum() {
    let config = partners_config(
        &["ethereum"],
        &format!(", {}", ethereum_section(Some("http://ethereum"), Some(ZERO_ADDRESS))),
    );

    let res = PartnersBuilder::build(&config);
    assert!(res.is_ok());
    let chain = res.unwrap();
    assert_eq!(chain.len(), 1);
    match &chain[0] {
        PartnersTier::Ethereum(dao) => assert_eq!(dao.function_name, "partners"),
        _ => unreachable!(),
    }
}

#[test]
fn partnersbuilder_build_non_cached_ok_aerospike() {
    let config = partners_config(
        &["aerospike"],
        ", \"aerospike\": {\"set\": \"default\", \"host\": \"http://aerospike\"}",
    );

    let res = PartnersBuilder::build(&config);
    assert!(res.is_ok());
    let chain = res.unwrap();
    assert_eq!(chain.len(), 1);
    assert!(matches!(chain[0], PartnersTier::Aerospike(_)));
}

#[test]
fn partnersbuilder_build_non_cached_ok_in_memory() {
    let config = partners_config(&["in-memory"], "");

    let res = PartnersBuilder::build(&config);
    assert!(res.is_ok());
    let chain = res.unwrap();
    assert_eq!(chain.len(), 1);
    assert!(matches!(chain[0], PartnersTier::InMemory(_)));
}

#[test]
fn partners_partnersbuilder_build_cached_ok() {
    let config = partners_config(
        &["in-memory", "aerospike", "ethereum"],
        &format!(
            ", \"aerospike\": {{\"set\": \"default\", \"host\": \"http://aerospike\"}}, {}",
            ethereum_section(Some("http://ethereum"), Some(ZERO_ADDRESS))
        ),
    );

    let res = PartnersBuilder::build(&config);
    assert!(res.is_ok());
    let chain = res.unwrap();
    assert_eq!(chain.len(), 3);
    assert!(matches!(chain[0], PartnersTier::InMemory(_)));
    assert!(matches!(chain[1], PartnersTier::Aerospike(_)));
    assert!(matches!(chain[2], PartnersTier::Ethereum(_)));
    assert!(chain[0].caches());
    assert!(chain[1].caches());
    assert!(!chain[2].caches());

    let plain = config_plain("ethereum", Some("aerospike"));
    let res = PlainPartnersBuilder::build(&plain);
    assert!(res.is_ok());
    let partners = res.unwrap();
    assert_eq!(partners.tiers(), 2);
    assert_eq!(
        partners.cache,
        Some(AerospikeCacheDao { set_name: "default".into(), host: "127.0.0.1:3000".into() })
    );
}

fn config_plain(connector: &str, cache: Option<&str>) -> Config {
    let cache = match cache {
        Some(cache) => format!(", \"cache\": \"{}\"", cache),
        None => String::new(),
    };
    config(&format!("{{\"data\": {{\"partners\": {{\"connector\": \"{}\"{}}}}}}}", connector, cache))
}

#[test]
fn partners_partnersbuilder_build_err_unknown() {
    let config = partners_config(&["unknown"], "");

    let res = PartnersBuilder::build(&config);
    assert!(res.is_err());
    match res {
        Err(DalPartnersError::UnknownConnector(name)) => assert_eq!(name, "unknown"),
        _ => unreachable!(),
    }

    let res = PlainPartnersBuilder::build(&config_plain("unknown", None));
    assert!(res.is_err());
    match res {
        Err(PartnersError::UnknownConnector(name)) => assert_eq!(name, "unknown"),
        _ => unreachable!(),
    }
}

#[test]
fn partners_partnersbuilder_build_err_unset() {
    let config = config("{}");

    let res = PartnersBuilder::build(&config);
    assert!(res.is_err());
    assert!(matches!(res, Err(DalPartnersError::Config(_))));

    let res = PlainPartnersBuilder::build(&config);
    assert!(res.is_err());
    assert!(matches!(res, Err(PartnersError::Config(_))));
}

#[test]
fn partnersbuilder_build_non_cached_ok() {
    let res = PlainPartnersBuilder::build(&config_plain("ethereum", None));
    assert!(res.is_ok());
    let partners = res.unwrap();
    assert_eq!(partners.tiers(), 1);
    assert_eq!(partners.cache, None);
    assert_eq!(partners.dao.network, "http://localhost:9545");
    assert_eq!(partners.dao.contract, [0u8; 20]);
    assert_eq!(partners.dao.function_name, "partners");
}

#[test]
fn partnersbuilder_build_err_unknown_cache() {
    let res = PlainPartnersBuilder::build(&config_plain("ethereum", Some("memcached")));
    match res {
        Err(PartnersError::Cache(CacheError::UnknownConnector(name))) => {
            assert_eq!(name, "memcached")
        }
        _ => unreachable!(),
    }
}

#[test]
fn partnersbuilder_build_rec_empty_list_is_unknown_connector() {
    let res = PartnersBuilder::build_rec(&[], &config("{}"));
    match res {
        Err(DalPartnersError::UnknownConnector(name)) => assert_eq!(name, ""),
        _ => unreachable!(),
    }
}

#[test]
fn partnersbuilder_build_rec_reports_first_refusal() {
    let names = vec!["in-memory".to_string(), "aerospike".to_string(), "unknown".to_string()];
    let res = PartnersBuilder::build_rec(&names, &config("{}"));
    assert!(matches!(res, Err(DalPartnersError::AerospikeDao(AerospikeDaoError::Config(_)))));
}

#[test]
fn partnersbuilder_build_dao_err_ethereum_parameter() {
    let config = ethereum_config(Some("http://ethereum"), Some("not an address"));
    let res = PartnersBuilder::build_dao("ethereum", &config);
    match res {
        Err(DalPartnersError::EthereumDao(EthereumDaoError::Parameter(name))) => {
            assert_eq!(name, "ethereum.contract")
        }
        _ => unreachable!(),
    }
}

#[test]
fn contract_queries_builder_reads_settings_or_defaults() {
    let dao = EthereumContractQueriesBuilder::build(&config("{}")).unwrap();
    assert_eq!(dao.network, "http://localhost:9545");
    assert_eq!(dao.contract, [0u8; 20]);

    let dao = EthereumContractQueriesBuilder::build(&config(
        "{\"data\": {\"partners\": {\"ethereum\": {\"network\": \"http://node:8545\", \
         \"contract\": \"0x0000000000000000000000000000000000000123\"}}}}",
    ))
    .unwrap();
    assert_eq!(dao.network, "http://node:8545");
    let mut expected = [0u8; 20];
    expected[18] = 0x01;
    expected[19] = 0x23;
    assert_eq!(dao.contract, expected);

    let dao = EthereumContractQueriesBuilder::build(&config(
        "{\"data\": {\"partners\": {\"ethereum\": {\"contract\": \"not an address\"}}}}",
    ))
    .unwrap();

    let res = EthereumContractQueriesBuilder::build(&config(
        "{\"data\": {\"partners\": {\"ethereum\": {\"network\": \"not a network\"}}}}",
    ));
    assert!(matches!(res, Err(EthereumDaoError::Network(_))));
    assert_eq!(dao.contract, [0u8; 20]);
}

#[test]
fn stream_consumer_builder_ok() {
    let config =
        config("{\"stream\": {\"kafka\": {\"topic\": \"topic\", \"broker\": \"0.0.0.0:0000\"}}}");

    let res = StreamConsumerBuilder::build(&config);
    assert!(res.is_ok());
    let consumer = res.unwrap();
    assert_eq!(consumer.topic, "topic");
    assert_eq!(consumer.broker, "0.0.0.0:0000");
    assert_eq!(consumer.group_id, "workers");
}

#[test]
fn stream_consumer_builder_err() {
    let res = StreamConsumerBuilder::build(&config("{}"));
    assert!(res.is_err());
    assert!(matches!(res, Err(ConsumerError::Config(_))));
}

#[test]
fn stream_producer_builder_ok() {
    let config =
        config("{\"stream\": {\"kafka\": {\"topic\": \"topic\", \"broker\": \"0.0.0.0:0000\"}}}");

    let res = StreamProducerBuilder::build(&config);
    assert!(res.is_ok());
    let producer = res.unwrap();
    assert_eq!(producer.topic, "topic");
    assert_eq!(producer.broker, "0.0.0.0:0000");
}

#[test]
fn stream_producer_builder_err() {
    let res = StreamProducerBuilder::build(&config("{}"));
    assert!(res.is_err());
}

#[test]
fn config_config_get_kafka_stream_producer() {
    let config = config(
        "{\"stream\": {\"kafka\": {\"topic\": \"kafka_topic\", \"broker\": \"1.1.1.1:1111\"}}}",
    );
    let producer = config.get_kafka_stream_producer().unwrap();
    assert_eq!(producer.topic, "kafka_topic");
    assert_eq!(producer.broker, "1.1.1.1:1111");
    assert_eq!(config.get_stream_producer().unwrap(), producer);
}

#[test]
fn mod_config_get_kafka_stream_producer() {
    let config = config(
        "{\"server\": {\"bind\": \"0.0.0.0:0000\"}, \"stream\": {\"kafka\": \
         {\"topic\": \"kafka_topic\", \"broker\": \"1.1.1.1:1111\"}}}",
    );
    assert_eq!(config.get_kafka_stream_producer().unwrap().topic, String::from("kafka_topic"));
    assert!(Config::from_json("{}").unwrap().get_kafka_stream_producer().is_err());
}

#[test]
fn ethereum_dao_builder_build_err_network() {
    let config = ethereum_config(Some("not a network"), Some(ZERO_ADDRESS));
    let res = EthereumDaoBuilder::build(&config, "function_name");
    match res {
        Err(EthereumDaoError::Network(_)) => (),
        _ => unreachable!(),
    }
}

#[test]
fn ethereum_dao_builder_reports_parameter_before_network() {
    let config = ethereum_config(Some("not a network"), Some("not an address"));
    let res = EthereumDaoBuilder::build(&config, "function_name");
    assert!(matches!(res, Err(EthereumDaoError::Parameter(_))));
}

#[test]
fn partnersbuilder_build_err_network() {
    let config = partners_config(
        &["in-memory", "ethereum"],
        &format!(", {}", ethereum_section(Some("not a network"), Some(ZERO_ADDRESS))),
    );
    let res = PartnersBuilder::build(&config);
    assert!(matches!(res, Err(DalPartnersError::EthereumDao(EthereumDaoError::Network(_)))));

    let plain = Config::from_json(
        "{\"data\": {\"partners\": {\"connector\": \"ethereum\", \
         \"ethereum\": {\"network\": \"not a network\"}}}}",
    )
    .unwrap();
    assert!(matches!(PlainPartnersBuilder::build(&plain), Err(PartnersError::Contract(_))));
}

#[test]
fn partnersbuilder_build_in_memory_reads_time_to_live() {
    let config = partners_config(&["in-memory"], ", \"in-memory\": {\"ttl\": 10}");
    let mut chain = PartnersBuilder::build(&config).unwrap();
    match chain.pop().unwrap() {
        PartnersTier::InMemory(mut dao) => {
            dao.put("k".into(), Partner { name: "p".into(), enabled: true }, 100);
            assert!(dao.get(&"k".into(), 110).is_ok());
            assert!(matches!(dao.get(&"k".into(), 111), Err(InMemoryDaoError::Expired)));
        }
        _ => unreachable!(),
    }

    let config = partners_config(&["in-memory"], ", \"in-memory\": {\"ttl\": \"soon\"}");
    match PartnersBuilder::build(&config) {
        Err(DalPartnersError::InMemoryDao(InMemoryDaoError::Parameter(name))) => {
            assert_eq!(name, "in-memory.ttl")
        }
        _ => unreachable!(),
    }
}

#[test]
fn partnersbuilder_build_reads_connectors_in_order() {
    let config = partners_config(
        &["aerospike", "in-memory"],
        ", \"aerospike\": {\"set\": \"default\", \"host\": \"http://aerospike\"}",
    );
    let chain = PartnersBuilder::build(&config).unwrap();
    assert_eq!(chain.len(), 2);
    assert!(matches!(chain[0], PartnersTier::Aerospike(_)));
    assert!(matches!(chain[1], PartnersTier::InMemory(_)));
}

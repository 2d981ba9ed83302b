use ucdp_gateway::config::{Config, Error};

fn config() -> Config {
    Config::from_json(
        "{\"abc\": \"123\", \"list\": [\"123\", \"456\"], \"server\": {\"bind\": \"0.0.0.0:0000\"}}",
    )
    .unwrap()
}

#[test]
fn config_config_get_str() {
    let config = config();
    assert_eq!(config.get_str("abc").unwrap().as_str(), "123");
    assert!(config.get_str("def").is_err());
}

#[test]
fn config_get_str_vec() {
    let config = Config::from_json("{\"abc\": [\"123\", \"456\"]}").unwrap();
    let vec = config.get_str_vec("abc").unwrap();
    assert_eq!(vec.len(), 2);
    assert_eq!(vec[0].as_str(), "123");
    assert_eq!(vec[1].as_str(), "456");
}

#[test]
fn config_get_server_binding_address() {
    assert_eq!(config().find_server_binding_address().unwrap(), "0.0.0.0:0000");
    assert_eq!(config().get_server_binding_address(), "0.0.0.0:0000");
    assert!(Config::from_json("{}").unwrap().find_server_binding_address().is_none());
}

#[test]
fn config_get_str_rejects_subscript_from_end() {
    let config = config();
    assert!(matches!(config.get_str("list[-5]"), Err(Error::Key(_))));
    assert!(matches!(config.get_str("list[ \t-5]"), Err(Error::Key(_))));
    assert!(matches!(config.get_str_vec("list[-1]"), Err(Error::Key(_))));
    assert!(matches!(config.get_str("list[-"), Err(Error::Key(_))));
    assert_eq!(config.get_str("list[1]").unwrap(), "456");
    // a `-` elsewhere in a key is no subscript from the end
    let dashed = Config::from_json(
        "{\"list\": [{\"a-b\": \"x\"}], \"in-memory\": {\"ttl\": \"5\"}}",
    )
    .unwrap();
    assert_eq!(dashed.get_str("list[0].a-b").unwrap(), "x");
    assert_eq!(dashed.get_str("in-memory.ttl").unwrap(), "5");
    assert!(matches!(dashed.get_str("list[0]x-"), Err(Error::Config(_))));
    assert!(matches!(dashed.get_str("list[9]"), Err(Error::Config(_))));
}

#[test]
fn config_from_json_reads_documents_with_plain_root_keys() {
    let config = Config::from_json("{\"a\": {\"b\": \"x\", \"c.d\": \"y\"}, \"n\": 7}").unwrap();
    assert_eq!(config.get_str("a.b").unwrap(), "x");
    assert_eq!(config.get_str("n").unwrap(), "7");
    assert!(config.get_str("a").is_err());
    assert_eq!(config.get_str_or("a.b", "z"), "x");
    assert_eq!(config.get_str_or("a.e", "z"), "z");

    // a document whose root is no object holds no setting
    let empty = Config::from_json("[1, 2]").unwrap();
    assert!(empty.get_str("0").is_err());
    assert!(Config::from_json("{}").is_some());
}

#[test]
fn config_from_json_refuses_what_it_cannot_read() {
    // no JSON document
    assert!(Config::from_json("").is_none());
    assert!(Config::from_json("{\"a\": ").is_none());
    assert!(Config::from_json("a = 1").is_none());
    // root keys that are paths
    assert!(Config::from_json("{\"a.b\": \"x\"}").is_none());
    assert!(Config::from_json("{\"a\": {\"b\": \"y\"}, \"a.b\": \"x\"}").is_none());
    assert!(Config::from_json("{\"a[0]\": \"x\"}").is_none());
    assert!(Config::from_json("{\"a[-1]\": \"x\"}").is_none());
    assert!(Config::from_json("{\"a\\u005b5000000000000]\": \"x\"}").is_none());
    assert!(Config::from_json("{\"ok\": 1, \"list[\": 2}").is_none());
}

#[test]
fn config_get_str_vec_returns_every_item_in_order() {
    let config = Config::from_json(
        "{\"names\": [\"in-memory\", \"aerospike\", \"ethereum\"], \
         \"mixed\": [\"a\", 1, true, -2], \"empty\": [], \
         \"odd\": [\"a\", null, [1]], \"text\": \"x\"}",
    )
    .unwrap();
    assert_eq!(config.get_str_vec("names").unwrap(), vec!["in-memory", "aerospike", "ethereum"]);
    assert_eq!(config.get_str_vec("mixed").unwrap(), vec!["a", "1", "true", "-2"]);
    assert_eq!(config.get_str_vec("empty").unwrap(), Vec::<String>::new());
    // a list with other items comes back item for item too
    let odd = config.get_str_vec("odd").unwrap();
    assert_eq!(odd.len(), 3);
    assert_eq!(odd[0], "a");
    assert_eq!(odd[1], "nil");
    assert!(matches!(config.get_str_vec("text"), Err(Error::Config(_))));
    assert!(matches!(config.get_str_vec("none"), Err(Error::Config(_))));
}

#[test]
fn config_get_str_vec_keeps_the_length_of_any_list() {
    let config =
        Config::from_json("{\"odd\": [{\"a\": 1, \"b\": 2}, null, [1, 2], \"x\"]}").unwrap();
    assert_eq!(config.get_str_vec("odd").unwrap().len(), 4);
    assert_eq!(config.get_str_vec("odd").unwrap()[3], "x");
}

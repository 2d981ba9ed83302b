use ucdp_gateway::config::Config;
use ucdp_gateway::dal::in_memory_dao::{
    parse_seconds, InMemoryDao, InMemoryDaoBuilder, InMemoryDaoError, InMemoryDaoImpl,
    InMemoryDaoResult,
};
use ucdp_gateway::dal::partners::Partner;

fn partner(name: &str) -> Partner {
    Partner { name: name.into(), enabled: true }
}

fn filled() -> InMemoryDaoImpl<Partner> {
    let mut dao = InMemoryDaoImpl::new();
    dao.put("ABC".into(), partner("ABC"), 0);
    dao.put("DEF".into(), partner("DEF"), 0);
    dao
}

#[test]
fn in_memory_dao_builder_build_ok() {
    let config = Config::from_json("{}").unwrap();
    let res = InMemoryDaoBuilder::<Partner>::build(&config);
    assert!(res.is_ok());
    assert_eq!(res.unwrap().len(), 0);
}

#[test]
fn in_memory_dao_get_ok() {
    let dao = filled();

    let res = dao.get(&"ABC".into(), 0).unwrap();
    assert_eq!(*res, InMemoryDaoResult { value: partner("ABC"), date: 0 });
}

#[test]
fn in_memory_dao_get_err_not_found() {
    let dao = filled();

    let res = dao.get(&"not found".into(), 0);
    match res {
        Err(InMemoryDaoError::ItemNotFound) => {}
        _ => unreachable!(),
    }
}

#[test]
fn in_memory_dao_put_ok() {
    let mut dao = filled();
    dao.put("123".into(), partner("123"), 0);
    let res = dao.get(&"123".into(), 0).unwrap();
    assert_eq!(res.value, partner("123"));
    assert_eq!(dao.len(), 3);
}

#[test]
fn in_memory_dao_put_replaces() {
    let mut dao = filled();
    dao.put("ABC".into(), Partner { name: "other".into(), enabled: false }, 7);
    assert_eq!(dao.len(), 2);
    assert_eq!(
        *dao.get(&"ABC".into(), 7).unwrap(),
        InMemoryDaoResult { value: Partner { name: "other".into(), enabled: false }, date: 7 }
    );
    assert_eq!(dao.get(&"DEF".into(), 7).unwrap().value, partner("DEF"));
}

#[test]
fn in_memory_dao_expires_after_ttl() {
    let mut dao = InMemoryDaoImpl::with_ttl(10);
    dao.put("ABC".into(), partner("ABC"), 100);
    assert!(dao.get(&"ABC".into(), 100).is_ok());
    assert!(dao.get(&"ABC".into(), 110).is_ok());
    assert!(matches!(dao.get(&"ABC".into(), 111), Err(InMemoryDaoError::Expired)));
    // a clock that reads earlier than the write expires nothing
    assert!(dao.get(&"ABC".into(), 5).is_ok());
    // the expired fact is still held, and a new write supersedes it
    assert_eq!(dao.len(), 1);
    dao.put("ABC".into(), partner("ABC"), 111);
    assert!(dao.get(&"ABC".into(), 111).is_ok());
}

#[test]
fn in_memory_dao_without_ttl_never_expires() {
    let mut dao = InMemoryDaoImpl::new();
    dao.put("ABC".into(), partner("ABC"), 0);
    assert!(dao.get(&"ABC".into(), u64::MAX).is_ok());
}

#[test]
fn in_memory_dao_builder_reads_time_to_live() {
    let config = Config::from_json("{\"in-memory\": {\"ttl\": \"60\"}}").unwrap();
    let mut dao = InMemoryDaoBuilder::<Partner>::build(&config).unwrap();
    dao.put("ABC".into(), partner("ABC"), 1000);
    assert!(dao.get(&"ABC".into(), 1060).is_ok());
    assert!(matches!(dao.get(&"ABC".into(), 1061), Err(InMemoryDaoError::Expired)));

    // without the setting nothing expires
    let config = Config::from_json("{}").unwrap();
    let mut dao = InMemoryDaoBuilder::<Partner>::build(&config).unwrap();
    dao.put("ABC".into(), partner("ABC"), 0);
    assert!(dao.get(&"ABC".into(), u64::MAX).is_ok());

    for malformed in ["\"\"", "\"10s\"", "\"-1\"", "\"1.5\"", "\"18446744073709551616\"", "true"] {
        let config =
            Config::from_json(&format!("{{\"in-memory\": {{\"ttl\": {}}}}}", malformed)).unwrap();
        match InMemoryDaoBuilder::<Partner>::build(&config) {
            Err(InMemoryDaoError::Parameter(name)) => assert_eq!(name, "in-memory.ttl"),
            _ => unreachable!(),
        }
    }
}

#[test]
fn seconds_are_decimal_digits_only() {
    assert_eq!(parse_seconds("0"), Some(0));
    assert_eq!(parse_seconds("10"), Some(10));
    assert_eq!(parse_seconds("007"), Some(7));
    assert_eq!(parse_seconds("18446744073709551615"), Some(u64::MAX));
    assert_eq!(parse_seconds("18446744073709551616"), None);
    assert_eq!(parse_seconds("99999999999999999999999"), None);
    assert_eq!(parse_seconds(""), None);
    assert_eq!(parse_seconds(" 1"), None);
    assert_eq!(parse_seconds("+1"), None);
    assert_eq!(parse_seconds("1e3"), None);
    assert_eq!(parse_seconds("\u{661}"), None);
}

/// Stores a partner and looks it up again through the store's interface.
fn store_and_look_up<D: InMemoryDao<Partner>>(
    dao: &mut D,
    key: &str,
    stored_at: u64,
    now: u64,
) -> Result<Partner, InMemoryDaoError> {
    InMemoryDao::put(dao, key.to_string(), partner(key), stored_at);
    InMemoryDao::get(&*dao, &key.to_string(), now).map(|fact| fact.value.clone())
}

#[test]
fn in_memory_dao_through_its_interface() {
    let mut dao = InMemoryDaoImpl::with_ttl(10);
    assert_eq!(store_and_look_up(&mut dao, "ABC", 100, 110).unwrap(), partner("ABC"));
    assert!(matches!(store_and_look_up(&mut dao, "ABC", 100, 111), Err(InMemoryDaoError::Expired)));
    assert!(matches!(
        InMemoryDao::get(&dao, &"DEF".to_string(), 100),
        Err(InMemoryDaoError::ItemNotFound)
    ));

    let mut dao = InMemoryDaoImpl::new();
    assert_eq!(store_and_look_up(&mut dao, "ABC", 0, u64::MAX).unwrap(), partner("ABC"));
}

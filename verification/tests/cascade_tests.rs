use ucdp_gateway::config::Config;
use ucdp_gateway::dal::cascade::{Cascade, Pending};
use ucdp_gateway::dal::in_memory_dao::{InMemoryDaoError, InMemoryDaoImpl};
use ucdp_gateway::dal::partners::{
    begin_lookup, partner_from_memory, partner_key, Error, Partner, PartnersBuilder, PartnersTier,
};

const PARTNER_ID: &str = "0x0000000000000000000000000000000000000000";
const ACME_ID: &str = "0xAAAAAAAAAAAAAAAAAAAAAAAAAAAAAAAAAAAAAAAA";

/// A tier of a chain under test: an in-process cache, or a stand-in for a
/// remote tier that counts what is asked of it.
enum Tier {
    Memory(InMemoryDaoImpl<Partner>),
    Stub { answer: Option<Partner>, queries: usize, stores: Vec<(String, Partner)> },
}

impl Tier {
    fn memory() -> Tier {
        Tier::Memory(InMemoryDaoImpl::new())
    }

    fn stub(answer: Option<Partner>) -> Tier {
        Tier::Stub { answer, queries: 0, stores: Vec::new() }
    }

    fn get(&mut self, key: &str) -> Result<Partner, Error> {
        match self {
            Tier::Memory(dao) => partner_from_memory(dao.get(&key.to_string(), 0)),
            Tier::Stub { answer, queries, .. } => {
                *queries += 1;
                answer.clone().ok_or_else(|| Error::PartnerNotFound(key.to_string()))
            }
        }
    }

    fn put(&mut self, key: &str, partner: Partner) {
        match self {
            Tier::Memory(dao) => dao.put(key.to_string(), partner, 0),
            Tier::Stub { stores, .. } => stores.push((key.to_string(), partner)),
        }
    }

    fn queries(&self) -> usize {
        match self {
            Tier::Stub { queries, .. } => *queries,
            Tier::Memory(_) => unreachable!(),
        }
    }

    fn stores(&self) -> usize {
        match self {
            Tier::Stub { stores, .. } => stores.len(),
            Tier::Memory(_) => unreachable!(),
        }
    }

    fn holds(&self, key: &str) -> Option<Partner> {
        match self {
            Tier::Memory(dao) => dao.get(&key.to_string(), 0).ok().map(|fact| fact.value.clone()),
            Tier::Stub { .. } => unreachable!(),
        }
    }
}

/// Drives one lookup to its end and returns its result with what was done.
fn resolve(tiers: &mut Vec<Tier>, key: &str) -> (Result<Partner, Error>, Vec<Pending>) {
    let mut done = Vec::new();
    let mut state: Cascade<Partner, Error> = match begin_lookup(key, tiers.len()) {
        Ok((_, state)) => state,
        Err(error) => return (Err(error), done),
    };
    loop {
        let pending = state.pending();
        match pending {
            Pending::Query(tier) => {
                done.push(pending);
                let reply = tiers[tier].get(key);
                state = state.on_reply(reply);
            }
            Pending::Store(tier) => {
                done.push(pending);
                let value = state.value_to_store().unwrap().clone();
                tiers[tier].put(key, value);
                state = state.on_stored();
            }
            Pending::Done => return (state.into_result().unwrap(), done),
        }
    }
}

fn partner() -> Partner {
    Partner { name: "partner".into(), enabled: true }
}

#[test]
fn cascade_self_heal_three_tiers() {
    let mut tiers = vec![Tier::memory(), Tier::memory(), Tier::stub(Some(partner()))];

    let (result, done) = resolve(&mut tiers, PARTNER_ID);
    assert_eq!(result.unwrap(), partner());
    assert_eq!(
        done,
        vec![
            Pending::Query(0),
            Pending::Query(1),
            Pending::Query(2),
            Pending::Store(1),
            Pending::Store(0)
        ]
    );
    assert_eq!(tiers[0].holds(PARTNER_ID), Some(partner()));
    assert_eq!(tiers[1].holds(PARTNER_ID), Some(partner()));
    assert_eq!(tiers[2].queries(), 1);
    assert_eq!(tiers[2].stores(), 0);

    let (result, done) = resolve(&mut tiers, PARTNER_ID);
    assert_eq!(result.unwrap(), partner());
    assert_eq!(done, vec![Pending::Query(0)]);
    assert_eq!(tiers[2].queries(), 1);
}

#[test]
fn cascade_hit_at_any_tier_heals_tiers_above_only() {
    for n in 1..6usize {
        for hit in 0..n {
            let mut tiers: Vec<Tier> = (0..n)
                .map(|i| if i == hit { Tier::stub(Some(partner())) } else { Tier::stub(None) })
                .collect();
            let (result, _) = resolve(&mut tiers, PARTNER_ID);
            assert_eq!(result.unwrap(), partner());
            for (i, tier) in tiers.iter().enumerate() {
                assert_eq!(tier.queries(), if i <= hit { 1 } else { 0 });
                assert_eq!(tier.stores(), if i < hit { 1 } else { 0 });
            }
        }
    }
}

#[test]
fn cascade_authoritative_failure_propagates() {
    let mut tiers = vec![Tier::memory(), Tier::memory(), Tier::stub(None)];

    let (result, done) = resolve(&mut tiers, PARTNER_ID);
    match result {
        Err(Error::PartnerNotFound(id)) => assert_eq!(id, PARTNER_ID),
        _ => unreachable!(),
    }
    assert_eq!(done, vec![Pending::Query(0), Pending::Query(1), Pending::Query(2)]);
    assert_eq!(tiers[0].holds(PARTNER_ID), None);
    assert_eq!(tiers[1].holds(PARTNER_ID), None);
    assert_eq!(tiers[2].stores(), 0);
}

#[test]
fn cascade_single_tier_failure_propagates() {
    let mut tiers = vec![Tier::memory()];
    let (result, done) = resolve(&mut tiers, PARTNER_ID);
    assert!(matches!(result, Err(Error::InMemoryDao(InMemoryDaoError::ItemNotFound))));
    assert_eq!(done, vec![Pending::Query(0)]);
}

#[test]
fn cascade_of_no_tier_does_not_start() {
    assert!(Cascade::<Partner, Error>::start(0).is_none());
}

#[test]
fn cascade_ignores_what_it_did_not_ask_for() {
    let state: Cascade<Partner, Error> = Cascade::start(2).unwrap();
    let state = state.on_stored();
    assert_eq!(state.pending(), Pending::Query(0));
    assert!(state.value_to_store().is_none());

    let state = state.on_reply(Err(Error::PartnerNotFound("x".into())));
    let state = state.on_reply(Ok(partner()));
    assert_eq!(state.pending(), Pending::Store(0));
    let state = state.on_reply(Ok(Partner { name: "other".into(), enabled: false }));
    assert_eq!(state.value_to_store(), Some(&partner()));
    assert!(matches!(state.pending(), Pending::Store(0)));
    let state = state.on_stored();
    assert_eq!(state.pending(), Pending::Done);
    let state = state.on_stored().on_reply(Err(Error::PartnerNotFound("x".into())));
    assert_eq!(state.into_result().unwrap().unwrap(), partner());
}

#[test]
fn partners_partners_dao_cache_hit() {
    // the cache answers: the tier behind it is never reached
    let mut tiers = vec![Tier::stub(Some(partner())), Tier::stub(None)];

    let (result, _) = resolve(&mut tiers, PARTNER_ID);
    assert_eq!(result.unwrap(), Partner { name: "partner".into(), enabled: true });
    assert_eq!(tiers[1].queries(), 0);
    assert_eq!(tiers[0].stores(), 0);
}

#[test]
fn partners_partners_dao_cache_miss() {
    let mut tiers = vec![Tier::stub(None), Tier::stub(Some(partner()))];

    let (result, _) = resolve(&mut tiers, PARTNER_ID);
    assert_eq!(result.unwrap(), Partner { name: "partner".into(), enabled: true });
    match &tiers[0] {
        Tier::Stub { stores, .. } => {
            assert_eq!(stores.len(), 1);
            assert_eq!(stores[0].0, "0x0000000000000000000000000000000000000000");
            assert_eq!(stores[0].1, Partner { name: "partner".into(), enabled: true });
        }
        _ => unreachable!(),
    }
}

#[test]
fn directory_in_memory_then_ethereum_asks_contract_once() {
    let config = Config::from_json(
        "{\"data\": {\"partners\": {\"connectors\": [\"in-memory\", \"ethereum\"]}}, \
         \"ethereum\": {\"network\": \"http://ethereum\", \
         \"contract\": \"0x0000000000000000000000000000000000000000\"}}",
    )
    .unwrap();
    let chain = PartnersBuilder::build(&config).unwrap();
    assert_eq!(chain.len(), 2);

    let acme = Partner { name: "acme".into(), enabled: true };
    let mut tiers: Vec<Tier> = chain
        .into_iter()
        .map(|tier| match tier {
            PartnersTier::InMemory(dao) => Tier::Memory(dao),
            PartnersTier::Ethereum(_) => Tier::stub(Some(acme.clone())),
            PartnersTier::Aerospike(_) => unreachable!(),
        })
        .collect();

    assert!(partner_key(ACME_ID).is_ok());
    let (first, _) = resolve(&mut tiers, ACME_ID);
    assert_eq!(first.unwrap(), acme);
    let (second, done) = resolve(&mut tiers, ACME_ID);
    assert_eq!(second.unwrap(), acme);
    assert_eq!(done, vec![Pending::Query(0)]);
    assert_eq!(tiers[1].queries(), 1);
}

#[test]
fn directory_refuses_malformed_identifier_before_asking_any_tier() {
    let mut tiers = vec![Tier::stub(Some(partner())), Tier::stub(Some(partner()))];
    let (result, done) = resolve(&mut tiers, "not an address");
    match result {
        Err(Error::Parameter(name)) => assert_eq!(name, "partner_id"),
        _ => unreachable!(),
    }
    assert!(done.is_empty());
    assert_eq!(tiers[0].queries(), 0);
    assert_eq!(tiers[1].queries(), 0);

    let mut none: Vec<Tier> = Vec::new();
    let (result, _) = resolve(&mut none, PARTNER_ID);
    match result {
        Err(Error::UnknownConnector(name)) => assert_eq!(name, ""),
        _ => unreachable!(),
    }
    let (key, state) = begin_lookup(ACME_ID, 3).unwrap();
    assert_eq!(key, [0xaa; 20]);
    assert_eq!(state.pending(), Pending::Query(0));
}

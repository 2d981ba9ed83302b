//! The in-process cache tier: a keyed store of facts, each kept with the
//! time at which it was written, with an optional time to live.

use vstd::prelude::*;
use vstd::string::StringSliceAdditionalSpecFns;
use vstd::utf8::encode_utf8;
use crate::config::Config;

verus! {

/// Why the in-process tier has no answer.
#[derive(Debug)]
pub enum InMemoryDaoError {
    /// Nothing is stored under the key.
    ItemNotFound,
    /// Something is stored under the key, but it has outlived the tier's
    /// time to live.
    Expired,
    /// The tier could not be configured.
    Config(crate::config::Error),
    /// The named setting is malformed.
    Parameter(String),
    /// The store could not be locked for reading.
    ReadLock,
    /// The store could not be locked for writing.
    WriteLock,
}

/// A stored fact and the time, in seconds, at which it was written.
#[derive(Debug, PartialEq, Eq)]
pub struct InMemoryDaoResult<V> {
    pub value: V,
    pub date: u64,
}

/// Whether a fact written at `date` is too old at `now` for a tier with the
/// time to live `ttl`. A tier without one keeps its facts for ever; a clock
/// that reads earlier than `date` makes nothing expire.
pub open spec fn expired(date: u64, now: u64, ttl: Option<u64>) -> bool {
    match ttl {
        Some(limit) => now - date > limit,
        None => false,
    }
}

/// The in-process tier. No key is held twice.
pub struct InMemoryDaoImpl<V> {
    keys: Vec<String>,
    items: Vec<InMemoryDaoResult<V>>,
    ttl: Option<u64>,
}

impl<V> View for InMemoryDaoImpl<V> {
    type V = Map<Seq<char>, InMemoryDaoResult<V>>;

    closed spec fn view(&self) -> Map<Seq<char>, InMemoryDaoResult<V>> {
        Map::new(
            |key: Seq<char>| exists|i: int| 0 <= i < self.keys.len() && self.keys[i]@ == key,
            |key: Seq<char>| self.items[self.position(key)],
        )
    }
}

impl<V> InMemoryDaoImpl<V> {
    #[verifier::type_invariant]
    spec fn well_formed(self) -> bool {
        &&& self.keys.len() == self.items.len()
        &&& forall|i: int, j: int|
            0 <= i < j < self.keys.len() ==> self.keys[i]@ != self.keys[j]@
    }

    /// Some place at which `key` is held, where it is held at all.
    closed spec fn position(self, key: Seq<char>) -> int {
        choose|i: int| 0 <= i < self.keys.len() && self.keys[i]@ == key
    }

    /// The tier's time to live in seconds, if it has one.
    pub closed spec fn time_to_live(self) -> Option<u64> {
        self.ttl
    }

    /// An empty tier whose facts never expire.
    pub fn new() -> (dao: Self)
        ensures
            dao@ == Map::<Seq<char>, InMemoryDaoResult<V>>::empty(),
            dao.time_to_live() is None,
    {
        let dao = InMemoryDaoImpl { keys: Vec::new(), items: Vec::new(), ttl: None };
        assert(dao@ =~= Map::<Seq<char>, InMemoryDaoResult<V>>::empty());
        dao
    }

    /// An empty tier whose facts are served for `ttl` seconds after they
    /// were written.
    pub fn with_ttl(ttl: u64) -> (dao: Self)
        ensures
            dao@ == Map::<Seq<char>, InMemoryDaoResult<V>>::empty(),
            dao.time_to_live() == Some(ttl),
    {
        let dao = InMemoryDaoImpl { keys: Vec::new(), items: Vec::new(), ttl: Some(ttl) };
        assert(dao@ =~= Map::<Seq<char>, InMemoryDaoResult<V>>::empty());
        dao
    }

    /// The place of `key` among the keys, if it is held.
    fn find(&self, key: &String) -> (place: Option<usize>)
        ensures
            match place {
                Some(i) => i < self.keys.len() && self.keys[i as int]@ == key@,
                None => forall|i: int| 0 <= i < self.keys.len() ==> self.keys[i]@ != key@,
            },
    {
        let mut i: usize = 0;
        while i < self.keys.len()
            invariant
                i <= self.keys.len(),
                forall|j: int| 0 <= j < i ==> self.keys[j]@ != key@,
            decreases self.keys.len() - i,
        {
            if self.keys[i] == *key {
                return Some(i);
            }
            i += 1;
        }
        None
    }

    /// Looks `key` up at the time `now`. A fact that has outlived the time
    /// to live is reported as expired and stays where it is.
    pub fn get(&self, key: &String, now: u64) -> (found: Result<
        &InMemoryDaoResult<V>,
        InMemoryDaoError,
    >)
        ensures
            match found {
                Ok(fact) => self@.contains_key(key@) && *fact == self@[key@] && !expired(
                    fact.date,
                    now,
                    self.time_to_live(),
                ),
                Err(InMemoryDaoError::ItemNotFound) => !self@.contains_key(key@),
                Err(InMemoryDaoError::Expired) => self@.contains_key(key@) && expired(
                    self@[key@].date,
                    now,
                    self.time_to_live(),
                ),
                Err(_) => false,
            },
    {
        proof {
            use_type_invariant(self);
        }
        match self.find(key) {
            None => Err(InMemoryDaoError::ItemNotFound),
            Some(i) => {
                assert(self@.contains_key(key@));
                assert(self.position(key@) == i);
                let fact = &self.items[i];
                let too_old = match self.ttl {
                    Some(limit) => now > fact.date && now - fact.date > limit,
                    None => false,
                };
                if too_old {
                    Err(InMemoryDaoError::Expired)
                } else {
                    Ok(fact)
                }
            },
        }
    }

    /// Stores `value` under `key` as written at the time `now`, in place of
    /// what was stored under that key before.
    pub fn put(&mut self, key: String, value: V, now: u64)
        ensures
            final(self)@ == old(self)@.insert(key@, InMemoryDaoResult { value, date: now }),
            final(self).time_to_live() == old(self).time_to_live(),
    {
        proof {
            use_type_invariant(&*self);
        }
        let fact = InMemoryDaoResult { value, date: now };
        let place = self.find(&key);
        let mut held = InMemoryDaoImpl { keys: Vec::new(), items: Vec::new(), ttl: None };
        core::mem::swap(self, &mut held);
        let InMemoryDaoImpl { mut keys, mut items, ttl } = held;
        match place {
            Some(i) => {
                items.set(i, fact);
            },
            None => {
                keys.push(key);
                items.push(fact);
            },
        }
        *self = InMemoryDaoImpl { keys, items, ttl };
        proof {
            let last = self.keys.len() - 1;
            assert forall|k: Seq<char>| old(self)@.contains_key(k) implies self@.contains_key(
                k,
            ) by {
                let p = old(self).position(k);
                assert(self.keys[p]@ == k);
            }
            assert(self@.contains_key(key@)) by {
                if place is Some {
                    assert(self.keys[place.unwrap() as int]@ == key@);
                } else {
                    assert(self.keys[last]@ == key@);
                }
            }
            assert forall|k: Seq<char>| self@.contains_key(k) implies old(self)@.insert(
                key@,
                fact,
            ).contains_key(k) && #[trigger] self@[k] == old(self)@.insert(key@, fact)[k] by {
                let p = self.position(k);
                if k != key@ {
                    assert(old(self).keys[p]@ == k);
                    assert(old(self).position(k) == p);
                } else if place is Some {
                    assert(p == place.unwrap());
                } else {
                    assert(p == last);
                }
            }
            assert(self@ =~= old(self)@.insert(key@, fact));
        }
    }

    /// The number of facts held, expired ones included.
    pub fn len(&self) -> (count: usize)
        ensures
            count == self@.dom().len(),
            self@.dom().finite(),
    {
        proof {
            use_type_invariant(self);
            self.lemma_domain_size(self.keys.len() as int);
            assert(self.domain_up_to(self.keys.len() as int) =~= self@.dom());
        }
        self.keys.len()
    }

    /// The keys held at the first `n` places.
    closed spec fn domain_up_to(self, n: int) -> Set<Seq<char>> {
        Set::new(|key: Seq<char>| exists|i: int| 0 <= i < n && self.keys[i]@ == key)
    }

    proof fn lemma_domain_size(self, n: int)
        requires
            self.well_formed(),
            0 <= n <= self.keys.len(),
        ensures
            self.domain_up_to(n).finite(),
            self.domain_up_to(n).len() == n,
        decreases n,
    {
        if n == 0 {
            assert(self.domain_up_to(0) =~= Set::<Seq<char>>::empty());
        } else {
            self.lemma_domain_size(n - 1);
            let added = self.keys[n - 1]@;
            assert(!self.domain_up_to(n - 1).contains(added));
            assert(self.domain_up_to(n) =~= self.domain_up_to(n - 1).insert(added));
        }
    }
}

/// A keyed store of facts with the time at which each was written.
pub trait InMemoryDao<V> {
    /// What the store holds, by key.
    spec fn facts(&self) -> Map<Seq<char>, InMemoryDaoResult<V>>;

    /// Whether the store serves, at the time `now`, a fact written at the
    /// time `date`.
    spec fn serves(&self, date: u64, now: u64) -> bool;

    /// Looks `key` up at the time `now`. The fact held under the key is
    /// returned exactly where one is held and the store still serves it; a
    /// key is reported as not found exactly where nothing is held under it.
    fn get(&self, key: &String, now: u64) -> (found: Result<
        &InMemoryDaoResult<V>,
        InMemoryDaoError,
    >)
        ensures
            found is Ok <==> self.facts().contains_key(key@) && self.serves(
                self.facts()[key@].date,
                now,
            ),
            found matches Ok(fact) ==> *fact == self.facts()[key@],
            found matches Err(InMemoryDaoError::ItemNotFound) <==> !self.facts().contains_key(key@),
    ;

    /// Stores `value` under `key` as written at the time `now`, in place of
    /// what was stored under that key before. What the store serves of a
    /// given age stays as it was.
    fn put(&mut self, key: String, value: V, now: u64)
        ensures
            final(self).facts() == old(self).facts().insert(
                key@,
                InMemoryDaoResult { value, date: now },
            ),
            forall|date: u64, at: u64| #[trigger]
                final(self).serves(date, at) == old(self).serves(date, at),
    ;
}

impl<V> InMemoryDao<V> for InMemoryDaoImpl<V> {
    open spec fn facts(&self) -> Map<Seq<char>, InMemoryDaoResult<V>> {
        self@
    }

    open spec fn serves(&self, date: u64, now: u64) -> bool {
        !expired(date, now, self.time_to_live())
    }

    fn get(&self, key: &String, now: u64) -> (found: Result<
        &InMemoryDaoResult<V>,
        InMemoryDaoError,
    >)
        ensures
            match found {
                Ok(fact) => self@.contains_key(key@) && *fact == self@[key@] && !expired(
                    fact.date,
                    now,
                    self.time_to_live(),
                ),
                Err(InMemoryDaoError::ItemNotFound) => !self@.contains_key(key@),
                Err(InMemoryDaoError::Expired) => self@.contains_key(key@) && expired(
                    self@[key@].date,
                    now,
                    self.time_to_live(),
                ),
                Err(_) => false,
            },
    {
        InMemoryDaoImpl::get(self, key, now)
    }

    fn put(&mut self, key: String, value: V, now: u64)
        ensures
            final(self).time_to_live() == old(self).time_to_live(),
    {
        InMemoryDaoImpl::put(self, key, value, now)
    }
}

/// The setting that holds the tier's time to live, in seconds.
pub const TTL_SETTING: &'static str = "in-memory.ttl";

/// The number that a run of decimal digits spells; `None` where a byte is no
/// digit. The empty run spells zero.
pub open spec fn decimal(digits: Seq<u8>) -> Option<nat>
    decreases digits.len(),
{
    if digits.len() == 0 {
        Some(0nat)
    } else {
        let last = digits.last();
        match decimal(digits.drop_last()) {
            Some(front) => if 0x30 <= last <= 0x39 {
                Some(front * 10 + (last - 0x30) as nat)
            } else {
                None
            },
            None => None,
        }
    }
}

/// The seconds that a text spells: one or more decimal digits and nothing
/// else, of a value that fits 64 bits.
pub open spec fn seconds_of(text: Seq<char>) -> Option<u64> {
    let digits = encode_utf8(text);
    match decimal(digits) {
        Some(value) => if digits.len() > 0 && value <= u64::MAX {
            Some(value as u64)
        } else {
            None
        },
        None => None,
    }
}

/// What a run of digits spells is at least what any of its beginnings
/// spells, and a run spells a number only if each of its beginnings does.
pub proof fn lemma_decimal_prefix(digits: Seq<u8>, n: int)
    requires
        0 <= n <= digits.len(),
    ensures
        decimal(digits) matches Some(value) ==> decimal(digits.subrange(0, n)) matches Some(front)
            && front <= value,
    decreases digits.len(),
{
    if n == digits.len() {
        assert(digits.subrange(0, n) =~= digits);
    } else {
        lemma_decimal_prefix(digits.drop_last(), n);
        assert(digits.drop_last().subrange(0, n) =~= digits.subrange(0, n));
    }
}

/// Reads a number of seconds: one or more decimal digits and nothing else.
pub fn parse_seconds(text: &str) -> (parsed: Option<u64>)
    ensures
        parsed == seconds_of(text@),
{
    let bytes = text.as_bytes();
    if bytes.len() == 0 {
        return None;
    }
    let mut value: u64 = 0;
    let mut i: usize = 0;
    while i < bytes.len()
        invariant
            i <= bytes.len(),
            bytes@ == encode_utf8(text@),
            decimal(bytes@.subrange(0, i as int)) == Some(value as nat),
        decreases bytes.len() - i,
    {
        let byte = bytes[i];
        let ghost longer = bytes@.subrange(0, i + 1);
        proof {
            assert(longer.drop_last() =~= bytes@.subrange(0, i as int));
            assert(longer.last() == byte);
            lemma_decimal_prefix(bytes@, i + 1);
        }
        if byte < 0x30 || byte > 0x39 {
            return None;
        }
        let digit: u64 = (byte - 0x30) as u64;
        let next = match value.checked_mul(10) {
            Some(tenfold) => tenfold.checked_add(digit),
            None => None,
        };
        match next {
            Some(next) => {
                value = next;
            },
            None => {
                return None;
            },
        }
        i += 1;
    }
    assert(bytes@.subrange(0, bytes@.len() as int) =~= bytes@);
    Some(value)
}

/// Whether the tier's time to live is well configured: the setting
/// `in-memory.ttl` is not there, or it spells a number of seconds.
pub open spec fn ttl_valid(config: Config) -> bool {
    config.has_str(TTL_SETTING@) ==> seconds_of(config.strings()[TTL_SETTING@]) is Some
}

/// The time to live that the configuration asks for: the seconds that the
/// setting `in-memory.ttl` spells; none where the setting is not there.
pub open spec fn ttl_of(config: Config) -> Option<u64> {
    if config.has_str(TTL_SETTING@) {
        seconds_of(config.strings()[TTL_SETTING@])
    } else {
        None
    }
}

/// Builds the in-process tier.
pub struct InMemoryDaoBuilder<V> {
    _v: core::marker::PhantomData<V>,
}

impl<V> InMemoryDaoBuilder<V> {
    /// An empty tier with the time to live that the setting `in-memory.ttl`
    /// gives in seconds. Without the setting its facts never expire; a
    /// setting that spells no number of seconds is a parameter error that
    /// names the setting.
    pub fn build(config: &Config) -> (built: Result<InMemoryDaoImpl<V>, InMemoryDaoError>)
        ensures
            match built {
                Ok(dao) => {
                    &&& ttl_valid(*config)
                    &&& dao@ == Map::<Seq<char>, InMemoryDaoResult<V>>::empty()
                    &&& dao.time_to_live() == ttl_of(*config)
                },
                Err(InMemoryDaoError::Parameter(name)) => !ttl_valid(*config) && name@
                    == TTL_SETTING@,
                Err(_) => false,
            },
    {
        match config.get_str(TTL_SETTING) {
            Ok(text) => match parse_seconds(text.as_str()) {
                Some(ttl) => Ok(InMemoryDaoImpl::with_ttl(ttl)),
                None => Err(InMemoryDaoError::Parameter(TTL_SETTING.to_owned())),
            },
            Err(_) => Ok(InMemoryDaoImpl::new()),
        }
    }
}

} // verus!

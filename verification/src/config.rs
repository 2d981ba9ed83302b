//! Read access to a loaded configuration: string settings and lists of
//! strings, looked up by dotted key.

use vstd::prelude::*;
use vstd::string::StringSliceAdditionalSpecFns;
use vstd::utf8::encode_utf8;

verus! {

/// The string settings of a configuration: for each key expression at which
/// it yields a string, that string.
pub uninterp spec fn config_strings(store: Config) -> Map<Seq<char>, Seq<char>>;

/// The lists of a configuration: for each key expression at which it holds a
/// list, the number of the list's items.
pub uninterp spec fn config_list_lens(store: Config) -> Map<Seq<char>, nat>;

/// The lists of plain values of a configuration: for each key expression at
/// which it holds a list whose items are all strings, numbers or booleans,
/// the items as texts, in the order of the list.
pub uninterp spec fn config_lists(store: Config) -> Map<Seq<char>, Seq<Seq<char>>>;

/// The keys of the object at the root of a JSON document: `None` where the
/// text is no JSON document, no key where its root is no object.
pub uninterp spec fn json_root_keys(text: Seq<char>) -> Option<Set<Seq<char>>>;

/// What a configuration read from a JSON document holds: its string
/// settings, the lengths of its lists, and its lists of plain values.
pub uninterp spec fn json_settings(text: Seq<char>) -> (
    Map<Seq<char>, Seq<char>>,
    Map<Seq<char>, nat>,
    Map<Seq<char>, Seq<Seq<char>>>,
);

/// The error type of the `config` crate, opaque to the verifier.
#[verifier::external_type_specification]
#[verifier::external_body]
pub struct ExConfigError(::config::ConfigError);

/// A value of the `config` crate, opaque to the verifier.
#[verifier::external_type_specification]
#[verifier::external_body]
pub struct ExConfigValue(::config::Value);

/// Whether a byte is a space or a tab.
pub open spec fn blank(byte: u8) -> bool {
    byte == 0x20 || byte == 0x09
}

/// Whether a `-` stands at the place `from`, or behind blanks that begin
/// there.
pub open spec fn minus_after_blanks(bytes: Seq<u8>, from: int) -> bool
    decreases bytes.len() - from,
{
    if from < 0 || from >= bytes.len() {
        false
    } else if bytes[from] == 0x2d {
        true
    } else if blank(bytes[from]) {
        minus_after_blanks(bytes, from + 1)
    } else {
        false
    }
}

/// Whether a subscript that counts from the end begins at the place `at`: a
/// `[` and, behind it, a `-` with nothing but blanks between them.
pub open spec fn from_end_at(bytes: Seq<u8>, at: int) -> bool {
    bytes[at] == 0x5b && minus_after_blanks(bytes, at + 1)
}

/// Whether a key holds the beginning of a subscript that counts from the end
/// of a list: a `[`, then blanks or none, then a `-`. It is told from the
/// key's bytes.
pub open spec fn indexes_from_end(key: Seq<char>) -> bool {
    let bytes = encode_utf8(key);
    exists|at: int| 0 <= at < bytes.len() && #[trigger] from_end_at(bytes, at)
}

/// Whether a key holds neither a `.` nor a `[`: such a key names one setting
/// and is no path into others. It is told from the key's bytes.
pub open spec fn plain_key(key: Seq<char>) -> bool {
    let bytes = encode_utf8(key);
    forall|i: int| 0 <= i < bytes.len() ==> bytes[i] != 0x2e && bytes[i] != 0x5b
}

/// The texts of a list of strings, in order.
pub open spec fn texts_of(texts: Seq<String>) -> Seq<Seq<char>> {
    texts.map_values(|text: String| text@)
}

/// Whether `key` is one of `keys`.
pub open spec fn listed(keys: Seq<String>, key: Seq<char>) -> bool {
    exists|i: int| 0 <= i < keys.len() && keys[i]@ == key
}

/// Whether a JSON document is read as a configuration: it is a JSON
/// document, and every key at its root is plain. The settings of a document
/// lie below its root keys; a root key that is itself a path is not taken.
pub open spec fn json_accepted(text: Seq<char>) -> bool {
    match json_root_keys(text) {
        Some(keys) => forall|key: Seq<char>| keys.contains(key) ==> plain_key(key),
        None => false,
    }
}

/// Why a setting could not be read.
#[derive(Debug)]
pub enum Error {
    /// The configuration has no usable value under the key.
    Config(::config::ConfigError),
    /// The key holds a subscript that counts from the end of a list, or
    /// the beginning of one; such keys are not looked up.
    Key(String),
}

/// A loaded configuration: a store of the `config` crate, which the verifier
/// does not look into. What it holds is spoken of through `config_strings`,
/// `config_list_lens` and `config_lists`.
#[verifier::external_body]
pub struct Config {
    config: ::config::Config,
}

/// `config::Config::get_str`: the value under `key`, turned into a string.
/// The contract claims that the call yields a string exactly at the keys of
/// `config_strings`, and then the string recorded there. Keys that index a
/// list from its end are left out, since the crate subtracts such an index
/// from the list's length without a check; whether the index lies within
/// the list could only be told by the crate's own reading of the key.
#[verifier::external_body]
fn store_get_str(store: &Config, key: &str) -> (found: Result<String, ::config::ConfigError>)
    requires
        !indexes_from_end(key@),
    ensures
        found is Ok <==> config_strings(*store).contains_key(key@),
        found is Ok ==> found->Ok_0@ == config_strings(*store)[key@],
{
    store.config.get_str(key)
}

/// `config::Config::get_array`: the items of the list under `key`. The
/// contract claims that the call succeeds exactly at the keys of
/// `config_list_lens`, with as many items as are recorded there; it says
/// nothing of the items. Keys that index a list from its end are left out,
/// as for `store_get_str`.
#[verifier::external_body]
fn store_get_array(store: &Config, key: &str) -> (found: Result<
    Vec<::config::Value>,
    ::config::ConfigError,
>)
    requires
        !indexes_from_end(key@),
    ensures
        found is Ok <==> config_list_lens(*store).contains_key(key@),
        found matches Ok(items) ==> items.len() == config_list_lens(*store)[key@],
{
    store.config.get_array(key)
}

/// `config::Config::get_array`, then `config::Value::into_str` on each item:
/// the list under `key` as texts, where every item is a string, a number or
/// a boolean. The contract claims that this succeeds exactly at the keys of
/// `config_lists`, with the texts recorded there, and that each such key
/// holds a list of as many items. Keys that index a list from its end are
/// left out, as for `store_get_str`.
#[verifier::external_body]
fn store_get_texts(store: &Config, key: &str) -> (found: Option<Vec<String>>)
    requires
        !indexes_from_end(key@),
    ensures
        found is Some <==> config_lists(*store).contains_key(key@),
        found matches Some(texts) ==> texts_of(texts@) == config_lists(*store)[key@],
        found matches Some(texts) ==> config_list_lens(*store).contains_key(key@) && texts.len()
            == config_list_lens(*store)[key@],
{
    match store.config.get_array(key) {
        Ok(items) => items.into_iter().map(|item| item.into_str().ok()).collect(),
        Err(_) => None,
    }
}

/// `Display` of `config::Value`, through `to_string`: the item rendered as
/// text. Nothing is claimed of the text: the crate renders a table in the
/// order in which a hash map is walked.
#[verifier::external_body]
fn value_to_string(item: &::config::Value) -> (text: String) {
    item.to_string()
}

/// `serde_json::from_str` to a `serde_json::Value`, of which the keys of the
/// root object are handed out. The contract claims only that the outcome is
/// a function of the text: `json_root_keys` names it.
#[verifier::external_body]
fn document_root_keys(text: &str) -> (found: Option<Vec<String>>)
    ensures
        found is Some <==> json_root_keys(text@) is Some,
        found matches Some(keys) ==> forall|key: Seq<char>|
            json_root_keys(text@)->Some_0.contains(key) <==> #[trigger] listed(keys@, key),
{
    match serde_json::from_str::<serde_json::Value>(text) {
        Ok(serde_json::Value::Object(fields)) => Some(fields.keys().cloned().collect()),
        Ok(_) => Some(Vec::new()),
        Err(_) => None,
    }
}

/// `config::Config::merge` of a JSON document held in memory, into an empty
/// store. The contract claims that the merge succeeds exactly where the text
/// is a JSON document, which the crate reads with `serde_json::from_str`,
/// and that what the store then holds is a function of the text:
/// `json_settings` names it. Documents with a root key that holds a `.` or a
/// `[` are left out: the crate takes such a key for a path, sets the root
/// keys in the order in which a hash map is walked, and indexes a list by a
/// subscript without a check.
#[verifier::external_body]
fn store_from_json(text: &str) -> (loaded: Option<Config>)
    requires
        json_root_keys(text@) is Some ==> json_accepted(text@),
    ensures
        loaded is Some <==> json_root_keys(text@) is Some,
        loaded matches Some(store) ==> config_strings(store) == json_settings(text@).0
            && config_list_lens(store) == json_settings(text@).1 && config_lists(store)
            == json_settings(text@).2,
{
    let mut config = ::config::Config::default();
    let merged = config.merge(::config::File::from_str(text, ::config::FileFormat::Json)).is_ok();
    if merged {
        Some(Config { config })
    } else {
        None
    }
}

/// Tells whether `key` holds neither a `.` nor a `[`.
pub fn key_is_plain(key: &str) -> (plain: bool)
    ensures
        plain == plain_key(key@),
{
    let bytes = key.as_bytes();
    let mut i: usize = 0;
    while i < bytes.len()
        invariant
            i <= bytes.len(),
            bytes@ == key.spec_bytes(),
            forall|j: int| 0 <= j < i ==> bytes@[j] != 0x2e && bytes@[j] != 0x5b,
        decreases bytes.len() - i,
    {
        if bytes[i] == 0x2e || bytes[i] == 0x5b {
            return false;
        }
        i += 1;
    }
    true
}

/// Tells whether a `-` stands at the place `from` of `bytes`, or behind
/// blanks that begin there.
fn minus_follows(bytes: &[u8], from: usize) -> (found: bool)
    ensures
        found == minus_after_blanks(bytes@, from as int),
{
    let mut j: usize = from;
    while j < bytes.len()
        invariant
            from <= j,
            minus_after_blanks(bytes@, from as int) == minus_after_blanks(bytes@, j as int),
        decreases bytes.len() - j,
    {
        if bytes[j] == 0x2d {
            return true;
        }
        if !(bytes[j] == 0x20 || bytes[j] == 0x09) {
            return false;
        }
        j += 1;
    }
    false
}

/// Tells whether `key` holds the beginning of a subscript that counts from
/// the end of a list.
pub fn key_indexes_from_end(key: &str) -> (found: bool)
    ensures
        found == indexes_from_end(key@),
{
    let bytes = key.as_bytes();
    let mut i: usize = 0;
    while i < bytes.len()
        invariant
            i <= bytes.len(),
            bytes@ == key.spec_bytes(),
            forall|at: int| 0 <= at < i ==> !#[trigger] from_end_at(bytes@, at),
        decreases bytes.len() - i,
    {
        if bytes[i] == 0x5b && i + 1 < bytes.len() && minus_follows(bytes, i + 1) {
            assert(from_end_at(bytes@, i as int));
            return true;
        }
        i += 1;
    }
    false
}

impl Config {
    /// Whether the configuration holds what the JSON document `text` holds.
    pub open spec fn holds_document(&self, text: Seq<char>) -> bool {
        &&& self.strings() == json_settings(text).0
        &&& self.list_lens() == json_settings(text).1
        &&& self.lists() == json_settings(text).2
    }

    /// Reads a configuration from a JSON document. The document is read
    /// exactly where it is a JSON document whose root keys are plain, and the
    /// configuration then holds the document's settings; any other text
    /// gives `None`.
    pub fn from_json(text: &str) -> (loaded: Option<Config>)
        ensures
            loaded is Some <==> json_accepted(text@),
            loaded matches Some(config) ==> config.holds_document(text@),
    {
        let keys = match document_root_keys(text) {
            Some(keys) => keys,
            None => {
                return None;
            },
        };
        let mut i: usize = 0;
        while i < keys.len()
            invariant
                i <= keys.len(),
                json_root_keys(text@) is Some,
                forall|key: Seq<char>|
                    json_root_keys(text@)->Some_0.contains(key) <==> #[trigger] listed(keys@, key),
                forall|j: int| 0 <= j < i ==> plain_key(#[trigger] keys[j]@),
            decreases keys.len() - i,
        {
            if !key_is_plain(keys[i].as_str()) {
                assert(listed(keys@, keys[i as int]@));
                return None;
            }
            i += 1;
        }
        assert forall|key: Seq<char>| json_root_keys(text@)->Some_0.contains(key) implies plain_key(
            key,
        ) by {
            assert(listed(keys@, key));
            let at = choose|at: int| 0 <= at < keys.len() && keys[at]@ == key;
            assert(plain_key(keys[at]@));
        }
        store_from_json(text)
    }

    /// The settings that `get_str` can return, by key.
    pub open spec fn strings(&self) -> Map<Seq<char>, Seq<char>> {
        config_strings(*self)
    }

    /// The number of items of each list, by key.
    pub open spec fn list_lens(&self) -> Map<Seq<char>, nat> {
        config_list_lens(*self)
    }

    /// The keys at which `get_str_vec` succeeds.
    pub open spec fn array_keys(&self) -> Set<Seq<char>> {
        self.list_lens().dom()
    }

    /// The lists of plain values that `get_str_vec` returns, by key.
    pub open spec fn lists(&self) -> Map<Seq<char>, Seq<Seq<char>>> {
        config_lists(*self)
    }

    /// Whether `get_str_vec` looks `key` up and finds a list of plain values.
    pub open spec fn has_list(&self, key: Seq<char>) -> bool {
        !indexes_from_end(key) && self.lists().contains_key(key)
    }

    /// Whether `get_str` looks `key` up and finds a string.
    pub open spec fn has_str(&self, key: Seq<char>) -> bool {
        !indexes_from_end(key) && self.strings().contains_key(key)
    }

    /// Whether `get_str_vec` looks `key` up and finds a list.
    pub open spec fn has_str_vec(&self, key: Seq<char>) -> bool {
        !indexes_from_end(key) && self.array_keys().contains(key)
    }

    /// The string setting under `key`.
    pub fn get_str(&self, key: &str) -> (found: Result<String, Error>)
        ensures
            match found {
                Ok(value) => self.has_str(key@) && value@ == self.strings()[key@],
                Err(Error::Key(rejected)) => indexes_from_end(key@) && rejected@
                    == key@,
                Err(Error::Config(_)) => !indexes_from_end(key@)
                    && !self.strings().contains_key(key@),
            },
    {
        if key_indexes_from_end(key) {
            return Err(Error::Key(key.to_owned()));
        }
        match store_get_str(self, key) {
            Ok(value) => Ok(value),
            Err(error) => Err(Error::Config(error)),
        }
    }

    /// The setting under `key` where `get_str` finds one, else `fallback`.
    pub open spec fn str_or(&self, key: Seq<char>, fallback: Seq<char>) -> Seq<char> {
        if self.has_str(key) {
            self.strings()[key]
        } else {
            fallback
        }
    }

    /// The string setting under `key`, or `fallback` where there is none.
    pub fn get_str_or(&self, key: &str, fallback: &str) -> (value: String)
        ensures
            value@ == self.str_or(key@, fallback@),
    {
        match self.get_str(key) {
            Ok(value) => value,
            Err(_) => fallback.to_owned(),
        }
    }

    /// The list under `key`, each item rendered as text, in the order of the
    /// list. A list of strings, numbers and booleans comes back item for
    /// item; so does any other list, of whose texts nothing is said here.
    pub fn get_str_vec(&self, key: &str) -> (found: Result<Vec<String>, Error>)
        ensures
            match found {
                Ok(texts) => self.has_str_vec(key@) && texts.len() == self.list_lens()[key@],
                Err(Error::Key(rejected)) => indexes_from_end(key@) && rejected@
                    == key@,
                Err(Error::Config(_)) => !indexes_from_end(key@)
                    && !self.array_keys().contains(key@),
            },
            self.has_list(key@) ==> found is Ok && texts_of(found->Ok_0@) == self.lists()[key@],
    {
        if key_indexes_from_end(key) {
            return Err(Error::Key(key.to_owned()));
        }
        match store_get_texts(self, key) {
            Some(texts) => {
                return Ok(texts);
            },
            None => {},
        }
        match store_get_array(self, key) {
            Ok(items) => {
                let mut texts: Vec<String> = Vec::new();
                let mut i: usize = 0;
                while i < items.len()
                    invariant
                        i <= items.len(),
                        texts.len() == i,
                        items.len() == self.list_lens()[key@],
                    decreases items.len() - i,
                {
                    texts.push(value_to_string(&items[i]));
                    i += 1;
                }
                Ok(texts)
            },
            Err(error) => Err(Error::Config(error)),
        }
    }

    /// The address on which the HTTP server listens: the setting
    /// `server.bind`, which the configuration must hold.
    pub fn get_server_binding_address(&self) -> (address: String)
        requires
            self.has_str("server.bind"@),
        ensures
            address@ == self.strings()["server.bind"@],
    {
        self.get_str_or("server.bind", "")
    }

    /// The address on which the HTTP server listens, where the configuration
    /// holds the setting `server.bind`.
    pub fn find_server_binding_address(&self) -> (found: Option<String>)
        ensures
            found is Some <==> self.has_str("server.bind"@),
            found matches Some(address) ==> address@ == self.strings()["server.bind"@],
    {
        match self.get_str("server.bind") {
            Ok(_) => Some(self.get_server_binding_address()),
            Err(_) => None,
        }
    }
}

impl Error {
    /// The error's description.
    pub fn message(&self) -> (text: String)
        ensures
            text@ == (match self {
                Error::Config(_) => "config error"@,
                Error::Key(_) => "unsupported key"@,
            }),
    {
        match self {
            Error::Config(_) => "config error".to_owned(),
            Error::Key(_) => "unsupported key".to_owned(),
        }
    }
}

} // verus!

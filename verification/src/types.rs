//! Core types: the stored item, the store itself and the service settings.

use dashmap::DashMap;
use rand::Rng;
use vstd::prelude::*;
use vstd::string::StringExecFns;

use crate::schemas::AuthErrorResponse;
use crate::store::{
    map_capacity, map_clear, map_contains_key, map_entries, map_get, map_insert, map_keys,
    map_len, map_remove, map_with_capacity,
};
use crate::text::{str_eq, views};

verus! {

/// Smallest identifier an item may carry.
pub const MIN_ITEM_ID: u64 = 1000;

/// Largest identifier an item may carry.
pub const MAX_ITEM_ID: u64 = 9999;

/// Number of entries for which a new store reserves room.
pub const INITIAL_CAPACITY: usize = 8192;

/// Whether `id` is an identifier that an item may carry.
pub open spec fn valid_item_id(id: u64) -> bool {
    MIN_ITEM_ID <= id <= MAX_ITEM_ID
}

/// Why an item could not be constructed.
#[derive(Debug, Clone, Copy, PartialEq, Eq, Structural)]
pub enum ValidationError {
    /// The requested identifier lies outside `MIN_ITEM_ID..=MAX_ITEM_ID`.
    IdOutOfRange,
}

/// Item information. An item never changes after it was made, and its
/// identifier always lies in `MIN_ITEM_ID..=MAX_ITEM_ID`.
#[derive(Debug, PartialEq, Eq, PartialOrd, Ord, Hash)]
pub struct Item {
    id: u64,
    name: String,
}

/// Mathematical value of an [`Item`].
pub struct ItemView {
    pub id: u64,
    pub name: Seq<char>,
}

/// Mathematical value of a store: each stored name with the item kept under it.
pub type ItemMap = Map<Seq<char>, ItemView>;

impl View for Item {
    type V = ItemView;

    closed spec fn view(&self) -> ItemView {
        ItemView { id: self.id, name: self.name@ }
    }
}

impl Clone for Item {
    fn clone(&self) -> (res: Self)
        ensures
            res == *self,
    {
        proof {
            use_type_invariant(self);
        }
        Item { id: self.id, name: self.name.clone() }
    }
}

/// `Rng::gen_range` on the thread's generator from `rand::thread_rng`: some
/// number between `low` and `high`, both included. Which one is not stated.
#[verifier::external_body]
fn random_in_range(low: u64, high: u64) -> (n: u64)
    requires
        low <= high,
    ensures
        low <= n <= high,
{
    rand::thread_rng().gen_range(low..=high)
}

impl Item {
    /// What holds of every item: its identifier is in range.
    #[verifier::type_invariant]
    pub open spec fn well_formed(&self) -> bool {
        valid_item_id(self@.id)
    }

    /// Try to create a new item with the given name and id.
    pub fn new(name: String, id: u64) -> (res: Result<Item, ValidationError>)
        ensures
            valid_item_id(id) ==> res is Ok && res->Ok_0@ == (ItemView { id, name: name@ }),
            !valid_item_id(id) ==> res == Err::<Item, ValidationError>(
                ValidationError::IdOutOfRange,
            ),
    {
        if MIN_ITEM_ID <= id && id <= MAX_ITEM_ID {
            Ok(Item { id, name })
        } else {
            Err(ValidationError::IdOutOfRange)
        }
    }

    /// Draws a random identifier that an item may carry.
    pub fn random_id() -> (id: u64)
        ensures
            valid_item_id(id),
    {
        random_in_range(MIN_ITEM_ID, MAX_ITEM_ID)
    }

    /// Creates a new item with the given name and a random identifier.
    pub fn new_with_random_id(name: String) -> (item: Item)
        ensures
            item@.name == name@,
            valid_item_id(item@.id),
    {
        let id: u64 = Item::random_id();
        Item { id, name }
    }

    /// The identifier of the item.
    pub fn id(&self) -> (id: u64)
        ensures
            id == self@.id,
            valid_item_id(id),
    {
        proof {
            use_type_invariant(self);
        }
        self.id
    }

    /// The name of the item.
    pub fn name(&self) -> (name: &String)
        ensures
            name@ == self@.name,
    {
        &self.name
    }
}

/// Whether a map of entries is one that a store can hold: it is finite,
/// every item is kept under its own name, and every identifier is in range.
pub open spec fn valid_entries(entries: ItemMap) -> bool {
    &&& entries.dom().finite()
    &&& forall|name: Seq<char>| #[trigger]
        entries.contains_key(name) ==> entries[name].name == name && valid_item_id(
            entries[name].id,
        )
}

/// Shared state that simulates a database: at most one item per name.
///
/// The operations that change the store take it by `&mut`, so each of them
/// is atomic; callers that share the store put it behind a lock.
pub struct AppState {
    db: DashMap<String, Item>,
}

impl View for AppState {
    type V = ItemMap;

    closed spec fn view(&self) -> ItemMap {
        map_entries(self.db)
    }
}

impl AppState {
    /// What holds of every store: its entries are valid.
    #[verifier::type_invariant]
    pub open spec fn well_formed(&self) -> bool {
        valid_entries(self@)
    }

    /// Creates an empty store.
    pub fn new() -> (state: AppState)
        ensures
            state@ == ItemMap::empty(),
            valid_entries(state@),
    {
        AppState { db: map_with_capacity(INITIAL_CAPACITY) }
    }

    /// Looks up the item stored under `name`.
    pub fn get(&self, name: &str) -> (found: Option<Item>)
        ensures
            valid_entries(self@),
            found is Some == self@.contains_key(name@),
            found matches Some(item) ==> item@ == self@[name@],
    {
        proof {
            use_type_invariant(self);
        }
        map_get(&self.db, name)
    }

    /// Stores `item` under its own name and hands back the item that was
    /// stored under that name before, if any.
    pub fn insert(&mut self, item: Item) -> (previous: Option<Item>)
        ensures
            final(self)@ == old(self)@.insert(item@.name, item@),
            previous is Some == old(self)@.contains_key(item@.name),
            previous matches Some(p) ==> p@ == old(self)@[item@.name],
            valid_entries(final(self)@),
    {
        proof {
            use_type_invariant(&*self);
            use_type_invariant(&item);
        }
        let key = item.name.clone();
        map_insert(&mut self.db, key, item)
    }

    /// Whether an item is stored under `name`.
    pub fn contains(&self, name: &str) -> (present: bool)
        ensures
            valid_entries(self@),
            present == self@.contains_key(name@),
    {
        proof {
            use_type_invariant(self);
        }
        map_contains_key(&self.db, name)
    }

    /// Stores `item` under its own name unless that name is taken, and says
    /// whether it stored it. A taken name leaves the store as it was.
    pub fn insert_if_absent(&mut self, item: Item) -> (stored: bool)
        ensures
            valid_entries(final(self)@),
            stored == !old(self)@.contains_key(item@.name),
            stored ==> final(self)@ == old(self)@.insert(item@.name, item@),
            !stored ==> final(self)@ == old(self)@,
    {
        proof {
            use_type_invariant(&*self);
            use_type_invariant(&item);
        }
        if map_contains_key(&self.db, item.name.as_str()) {
            false
        } else {
            let key = item.name.clone();
            let _ = map_insert(&mut self.db, key, item);
            true
        }
    }

    /// Removes the item stored under `name` and hands it back, if there is one.
    pub fn remove(&mut self, name: &str) -> (removed: Option<Item>)
        ensures
            valid_entries(final(self)@),
            final(self)@ == old(self)@.remove(name@),
            removed is Some == old(self)@.contains_key(name@),
            removed matches Some(item) ==> item@ == old(self)@[name@],
    {
        proof {
            use_type_invariant(&*self);
        }
        match map_remove(&mut self.db, name) {
            Some(pair) => Some(pair.1),
            None => None,
        }
    }

    /// The names of all stored items, each once, in no particular order.
    pub fn list_keys(&self) -> (names: Vec<String>)
        ensures
            valid_entries(self@),
            views(names@).no_duplicates(),
            views(names@).to_set() == self@.dom(),
            names@.len() == self@.dom().len(),
    {
        proof {
            use_type_invariant(self);
        }
        let names = map_keys(&self.db);
        proof {
            views(names@).unique_seq_to_set();
        }
        names
    }

    /// The number of stored items.
    pub fn len(&self) -> (n: usize)
        ensures
            valid_entries(self@),
            n == self@.dom().len(),
    {
        proof {
            use_type_invariant(self);
        }
        map_len(&self.db)
    }

    /// How many items the store can hold before it grows.
    pub fn capacity(&self) -> (n: usize)
        ensures
            valid_entries(self@),
            n >= self@.dom().len(),
    {
        proof {
            use_type_invariant(self);
        }
        map_capacity(&self.db)
    }

    /// Removes every item.
    pub fn clear(&mut self)
        ensures
            final(self)@ == ItemMap::empty(),
            valid_entries(final(self)@),
    {
        map_clear(&mut self.db)
    }
}

/// The key that guards the admin operations when none is configured.
pub const DEFAULT_API_KEY: &'static str = "axum-api-key";

/// Logging level chosen on the command line.
#[derive(Clone, Copy, Debug, PartialEq, Eq, Structural)]
pub enum LogLevel {
    Trace,
    Debug,
    Info,
    Warn,
    Error,
}

/// The most verbose level that a log filter lets through.
#[derive(Clone, Copy, Debug, PartialEq, Eq, Structural)]
pub enum LevelFilter {
    Off,
    Error,
    Warn,
    Info,
    Debug,
    Trace,
}

/// Runtime environment.
#[derive(Clone, Copy, Debug, PartialEq, Eq, Structural)]
pub enum Environment {
    Production,
    Test,
    Development,
    Local,
}

/// A text that names no runtime environment.
#[derive(Debug)]
pub struct InvalidEnvironment {
    pub input: String,
}

/// API config for passing settings to routes.
#[derive(Debug)]
pub struct Config {
    pub api_key: String,
    pub env: Environment,
}

/// Why a request may not use an admin operation.
#[derive(Debug)]
pub enum AuthError {
    /// No key was presented.
    Missing,
    /// The presented key, which is not the configured one.
    Invalid(String),
}

/// Evidence that a request presented the configured API key.
#[derive(Debug)]
pub struct ApiKeyExtractor;

impl Default for LogLevel {
    fn default() -> (level: Self)
        ensures
            level == LogLevel::Info,
    {
        LogLevel::Info
    }
}

impl LogLevel {
    /// The filter that lets through this level and everything more severe.
    pub open spec fn filter(&self) -> LevelFilter {
        match self {
            LogLevel::Trace => LevelFilter::Trace,
            LogLevel::Debug => LevelFilter::Debug,
            LogLevel::Info => LevelFilter::Info,
            LogLevel::Warn => LevelFilter::Warn,
            LogLevel::Error => LevelFilter::Error,
        }
    }

    /// Convert the command line log level to a log level filter.
    pub fn to_filter(&self) -> (filter: LevelFilter)
        ensures
            filter == self.filter(),
    {
        match self {
            LogLevel::Trace => LevelFilter::Trace,
            LogLevel::Debug => LevelFilter::Debug,
            LogLevel::Info => LevelFilter::Info,
            LogLevel::Warn => LevelFilter::Warn,
            LogLevel::Error => LevelFilter::Error,
        }
    }
}

impl LevelFilter {
    /// How much a filter lets through: nothing at 0, everything at 5.
    pub open spec fn verbosity(&self) -> nat {
        match self {
            LevelFilter::Off => 0,
            LevelFilter::Error => 1,
            LevelFilter::Warn => 2,
            LevelFilter::Info => 3,
            LevelFilter::Debug => 4,
            LevelFilter::Trace => 5,
        }
    }
}

impl Default for Environment {
    fn default() -> (env: Self)
        ensures
            env == Environment::Local,
    {
        Environment::Local
    }
}

impl Environment {
    /// The name of the environment, as it is written and read.
    pub open spec fn name(&self) -> Seq<char> {
        match self {
            Environment::Production => "PRODUCTION"@,
            Environment::Test => "TEST"@,
            Environment::Development => "DEVELOPMENT"@,
            Environment::Local => "LOCAL"@,
        }
    }

    /// The environment that a text names, if it names one.
    pub open spec fn parse(input: Seq<char>) -> Option<Environment> {
        if input == "DEVELOPMENT"@ {
            Some(Environment::Development)
        } else if input == "PRODUCTION"@ {
            Some(Environment::Production)
        } else if input == "TEST"@ {
            Some(Environment::Test)
        } else if input == "LOCAL"@ {
            Some(Environment::Local)
        } else {
            None
        }
    }

    /// The environment that a value of the environment variable selects:
    /// the one it names, and the default where it is unset or names none.
    pub open spec fn selected(value: Option<Seq<char>>) -> Environment {
        match value {
            Some(text) => match Environment::parse(text) {
                Some(env) => env,
                None => Environment::Local,
            },
            None => Environment::Local,
        }
    }

    /// Reads an environment from its name.
    pub fn from_str(input: &str) -> (res: Result<Environment, InvalidEnvironment>)
        ensures
            match res {
                Ok(env) => Environment::parse(input@) == Some(env),
                Err(e) => Environment::parse(input@) is None && e.input@ == input@,
            },
    {
        if str_eq(input, "DEVELOPMENT") {
            Ok(Environment::Development)
        } else if str_eq(input, "PRODUCTION") {
            Ok(Environment::Production)
        } else if str_eq(input, "TEST") {
            Ok(Environment::Test)
        } else if str_eq(input, "LOCAL") {
            Ok(Environment::Local)
        } else {
            Err(InvalidEnvironment { input: String::from_str(input) })
        }
    }

    /// The runtime environment for the given value of the environment
    /// variable, `None` standing for an unset variable.
    pub fn from_env(value: Option<&str>) -> (env: Environment)
        ensures
            env == Environment::selected(
                match value {
                    Some(text) => Some(text@),
                    None => None,
                },
            ),
    {
        match value {
            Some(text) => match Environment::from_str(text) {
                Ok(env) => env,
                Err(_) => Environment::Local,
            },
            None => Environment::Local,
        }
    }

    /// Writes the name of the environment.
    pub fn to_string(&self) -> (s: String)
        ensures
            s@ == self.name(),
    {
        match self {
            Environment::Production => String::from_str("PRODUCTION"),
            Environment::Test => String::from_str("TEST"),
            Environment::Development => String::from_str("DEVELOPMENT"),
            Environment::Local => String::from_str("LOCAL"),
        }
    }
}

/// Reading the name that was written gives the environment back.
pub proof fn lemma_environment_name_round_trip(env: Environment)
    ensures
        Environment::parse(env.name()) == Some(env),
{
    reveal_strlit("DEVELOPMENT");
    reveal_strlit("PRODUCTION");
    reveal_strlit("TEST");
    reveal_strlit("LOCAL");
    assert("DEVELOPMENT"@.len() == 11);
    assert("PRODUCTION"@.len() == 10);
    assert("TEST"@.len() == 4);
    assert("LOCAL"@.len() == 5);
}

impl InvalidEnvironment {
    /// What the error says, as a character sequence.
    pub open spec fn text(&self) -> Seq<char> {
        "Invalid environment value: '"@ + self.input@ + "'"@
    }

    /// What the error says.
    pub fn message(&self) -> (s: String)
        ensures
            s@ == self.text(),
    {
        String::from_str("Invalid environment value: '").concat(self.input.as_str()).concat("'")
    }
}

impl Config {
    pub fn new(api_key: String, env: Environment) -> (config: Self)
        ensures
            config.api_key == api_key,
            config.env == env,
    {
        Self { api_key, env }
    }

    /// The configuration for the given values of the two environment
    /// variables, `None` standing for an unset variable: the key that is
    /// set, else the default key, and the environment that is selected.
    pub fn new_from_env(api_key: Option<String>, env: Option<&str>) -> (config: Self)
        ensures
            config.api_key@ == (match api_key {
                Some(key) => key@,
                None => DEFAULT_API_KEY@,
            }),
            config.env == Environment::selected(
                match env {
                    Some(text) => Some(text@),
                    None => None,
                },
            ),
    {
        let api_key = match api_key {
            Some(key) => key,
            None => String::from_str(DEFAULT_API_KEY),
        };
        Self { api_key, env: Environment::from_env(env) }
    }
}

impl Default for Config {
    fn default() -> (config: Self)
        ensures
            config.api_key@ == DEFAULT_API_KEY@,
            config.env == Environment::Local,
    {
        Self { api_key: String::from_str(DEFAULT_API_KEY), env: Environment::Local }
    }
}

/// What the access guard decides for a presented key.
pub open spec fn authorization(presented_key: Option<Seq<char>>, configured_key: Seq<char>) -> Result<
    (),
    Option<Seq<char>>,
> {
    match presented_key {
        None => Err(None),
        Some(key) => if key == configured_key {
            Ok(())
        } else {
            Err(Some(key))
        },
    }
}

/// The view of an optional string slice.
pub open spec fn opt_view(value: Option<&str>) -> Option<Seq<char>> {
    match value {
        Some(text) => Some(text@),
        None => None,
    }
}

/// Checks a presented key against the configured one. Only the configured
/// key itself is let through.
pub fn authorize(presented_key: Option<&str>, configured_key: &str) -> (res: Result<(), AuthError>)
    ensures
        match res {
            Ok(_) => authorization(opt_view(presented_key), configured_key@) is Ok,
            Err(AuthError::Missing) => authorization(opt_view(presented_key), configured_key@)
                == Err::<(), Option<Seq<char>>>(None),
            Err(AuthError::Invalid(key)) => authorization(opt_view(presented_key), configured_key@)
                == Err::<(), Option<Seq<char>>>(Some(key@)),
        },
{
    match presented_key {
        None => Err(AuthError::Missing),
        Some(key) => {
            if str_eq(key, configured_key) {
                Ok(())
            } else {
                Err(AuthError::Invalid(String::from_str(key)))
            }
        },
    }
}

impl AuthError {
    /// What the error says, as a character sequence.
    pub open spec fn text(&self) -> Seq<char> {
        match self {
            AuthError::Missing => "Missing api-key header"@,
            AuthError::Invalid(key) => "Invalid API key: '"@ + key@ + "'"@,
        }
    }

    /// What the error says.
    pub fn message(&self) -> (s: String)
        ensures
            s@ == self.text(),
    {
        match self {
            AuthError::Missing => String::from_str("Missing api-key header"),
            AuthError::Invalid(key) => String::from_str("Invalid API key: '").concat(
                key.as_str(),
            ).concat("'"),
        }
    }
}

impl ApiKeyExtractor {
    /// What is answered to a request that may not pass, and `None` where it may.
    pub open spec fn rejection(
        config: Option<Seq<char>>,
        api_key: Option<Seq<char>>,
    ) -> Option<Seq<char>> {
        match config {
            None => Some("Config extension missing from route"@),
            Some(configured) => match api_key {
                None => Some("Missing api-key header"@),
                Some(key) => if key == configured {
                    None
                } else {
                    Some("Invalid API key: '"@ + key + "'"@)
                },
            },
        }
    }

    /// Checks the `api-key` header of a request against the configuration
    /// of its route. `config` is `None` where the route carries none, and
    /// `api_key` is `None` where the header is missing or is not text.
    pub fn from_request_parts(config: Option<&Config>, api_key: Option<&str>) -> (res: Result<
        ApiKeyExtractor,
        AuthErrorResponse,
    >)
        ensures
            match res {
                Ok(_) => ApiKeyExtractor::rejection(
                    match config {
                        Some(c) => Some(c.api_key@),
                        None => None,
                    },
                    opt_view(api_key),
                ) is None,
                Err(response) => ApiKeyExtractor::rejection(
                    match config {
                        Some(c) => Some(c.api_key@),
                        None => None,
                    },
                    opt_view(api_key),
                ) == Some(response.message@),
            },
    {
        match config {
            None => Err(AuthErrorResponse::new_from_str("Config extension missing from route")),
            Some(config) => match authorize(api_key, config.api_key.as_str()) {
                Ok(_) => Ok(ApiKeyExtractor),
                Err(error) => Err(AuthErrorResponse::new(error.message())),
            },
        }
    }
}

} // verus!

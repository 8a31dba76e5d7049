//! The cache facade: its configuration, and the lookup protocol that decides,
//! one step at a time, what storage work a lookup needs.
use crate::age::Age;
use crate::store::{entry_path, entry_path_of, StoreErr};
use vstd::prelude::*;

verus! {

/// The configuration of a cache, as values.
pub struct TinyRefView {
    pub cache_name: Seq<char>,
    pub max_age: Option<Age>,
    pub ignore_cache: bool,
}

impl TinyRefView {
    /// The same configuration with entries older than `max` treated as stale.
    pub open spec fn with_max_age(self, max: Age) -> TinyRefView {
        TinyRefView { max_age: Some(max), ..self }
    }

    /// The same configuration with lookups bypassed.
    pub open spec fn without_lookup(self) -> TinyRefView {
        TinyRefView { ignore_cache: true, ..self }
    }

    /// A fresh configuration for the cache named `name`.
    pub open spec fn named(name: Seq<char>) -> TinyRefView {
        TinyRefView { cache_name: name, max_age: None, ignore_cache: false }
    }
}

/// cache with optional max age configuration
#[derive(Clone, Debug)]
pub struct TinyRef {
    cache_name: String,
    max_cache_age: Option<Age>,
    ignore_cache: bool,
}

impl View for TinyRef {
    type V = TinyRefView;

    closed spec fn view(&self) -> TinyRefView {
        TinyRefView {
            cache_name: self.cache_name@,
            max_age: self.max_cache_age,
            ignore_cache: self.ignore_cache,
        }
    }
}

/// The directory name of a cache made without a name.
pub open spec fn default_cache_name() -> Seq<char> {
    seq!['.', 't', 'i', 'n', 'y', '_', 'c', 'a', 'c', 'h', 'e']
}

/// Which operation a lookup serves.
#[derive(Clone, Copy, Debug, PartialEq, Eq, Structural)]
pub enum Lookup {
    /// Read an entry; a miss yields nothing.
    Read,
    /// Read an entry; a miss is filled by the producer and written back.
    Fetch,
}

/// What the lookup asks its caller to do next.
#[derive(Clone, Copy, Debug, PartialEq, Eq, Structural)]
pub enum Action {
    /// Ask storage for the entry's age.
    QueryAge,
    /// Read the entry's bytes and decode them.
    Load,
    /// Delete the entry; a failure is ignored.
    Remove,
    /// Call the producer.
    Produce,
    /// Write the produced value to the entry; a failure is ignored.
    Store,
    /// Finish with the decoded value.
    ReturnCached,
    /// Finish with the produced value.
    ReturnProduced,
    /// Finish with nothing.
    ReturnNone,
}

/// What the caller reports after doing an action (or `Start`, before the first).
#[derive(Clone, Copy, Debug, PartialEq, Eq, Structural)]
pub enum Event {
    /// The lookup begins.
    Start,
    /// The entry's age, or `None` when storage gave none.
    AgeKnown(Option<Age>),
    /// The entry was read and decoded (`None`), or the error that storage gave.
    Loaded(Option<StoreErr>),
    /// The entry was removed, or its removal failed.
    Removed,
    /// The producer returned.
    Produced,
    /// The produced value was written, or its write failed.
    Stored,
}

/// Whether an entry of age `age` is stale under the maximum age `max`.
pub open spec fn is_stale(max: Option<Age>, age: Option<Age>) -> bool {
    match (max, age) {
        (Some(m), Some(a)) => a.spec_exceeds(m),
        _ => false,
    }
}

/// How a lookup ends when the entry is missing.
pub open spec fn on_miss(mode: Lookup) -> Action {
    match mode {
        Lookup::Read => Action::ReturnNone,
        Lookup::Fetch => Action::Produce,
    }
}

/// The next action of a lookup in configuration `cfg` after `event`.
pub open spec fn next_action(cfg: TinyRefView, mode: Lookup, event: Event) -> Action {
    match event {
        Event::Start => {
            if mode == Lookup::Fetch && cfg.ignore_cache {
                Action::Produce
            } else if cfg.max_age is Some {
                Action::QueryAge
            } else {
                Action::Load
            }
        },
        Event::AgeKnown(age) => {
            if is_stale(cfg.max_age, age) {
                Action::Remove
            } else {
                Action::Load
            }
        },
        Event::Loaded(None) => Action::ReturnCached,
        Event::Loaded(Some(StoreErr::Ser)) => Action::Remove,
        Event::Loaded(Some(_)) => on_miss(mode),
        Event::Removed => on_miss(mode),
        Event::Produced => Action::Store,
        Event::Stored => Action::ReturnProduced,
    }
}

impl TinyRef {
    pub fn with_name(cache_name: &str) -> (r: TinyRef)
        ensures
            r@ == TinyRefView::named(cache_name@),
    {
        TinyRef { cache_name: String::from_str(cache_name), max_cache_age: None, ignore_cache: false }
    }

    pub fn new() -> (r: TinyRef)
        ensures
            r@ == TinyRefView::named(default_cache_name()),
    {
        let r = TinyRef::with_name(".tiny_cache");
        proof {
            reveal_strlit(".tiny_cache");
            assert(r@.cache_name =~= default_cache_name());
        }
        r
    }

    /// define max age of the cache
    pub fn max_age(self, max_duration: Age) -> (r: TinyRef)
        ensures
            r@ == self@.with_max_age(max_duration),
    {
        let mut inner = self;
        inner.max_cache_age = Some(max_duration);
        inner
    }

    pub fn no_cache(&self) -> (r: TinyRef)
        ensures
            r@ == self@.without_lookup(),
    {
        TinyRef {
            cache_name: self.cache_name.clone(),
            max_cache_age: self.max_cache_age,
            ignore_cache: true,
        }
    }

    pub fn cache_name(&self) -> (r: &str)
        ensures
            r@ == self@.cache_name,
    {
        self.cache_name.as_str()
    }

    pub fn max_cache_age(&self) -> (r: Option<Age>)
        ensures
            r == self@.max_age,
    {
        self.max_cache_age
    }

    pub fn ignores_cache(&self) -> (r: bool)
        ensures
            r == self@.ignore_cache,
    {
        self.ignore_cache
    }

    /// The path of the file that holds the entry stored under `item_key`.
    pub fn entry_path(&self, item_key: &str) -> (r: String)
        ensures
            r@ == entry_path_of(self@.cache_name, item_key@),
    {
        entry_path(self.cache_name.as_str(), item_key)
    }

    /// Whether an entry of age `age` is stale under this configuration.
    pub fn is_stale(&self, age: Option<Age>) -> (r: bool)
        ensures
            r == is_stale(self@.max_age, age),
    {
        match (self.max_cache_age, age) {
            (Some(m), Some(a)) => a.exceeds(&m),
            _ => false,
        }
    }

    /// The next action of a lookup after `event`.
    pub fn step(&self, mode: Lookup, event: Event) -> (r: Action)
        ensures
            r == next_action(self@, mode, event),
    {
        let miss = match mode {
            Lookup::Read => Action::ReturnNone,
            Lookup::Fetch => Action::Produce,
        };
        match event {
            Event::Start => {
                if mode == Lookup::Fetch && self.ignore_cache {
                    Action::Produce
                } else if self.max_cache_age.is_some() {
                    Action::QueryAge
                } else {
                    Action::Load
                }
            },
            Event::AgeKnown(age) => {
                if self.is_stale(age) {
                    Action::Remove
                } else {
                    Action::Load
                }
            },
            Event::Loaded(None) => Action::ReturnCached,
            Event::Loaded(Some(StoreErr::Ser)) => Action::Remove,
            Event::Loaded(Some(_)) => miss,
            Event::Removed => miss,
            Event::Produced => Action::Store,
            Event::Stored => Action::ReturnProduced,
        }
    }
}

/// A lookup that finds its entry older than the maximum age removes the
/// entry and treats it as missing: a fetch calls the producer and writes its
/// value back, a read ends with nothing.
pub proof fn lemma_stale_entry_is_refetched(base: TinyRefView, max: Age, age: Age)
    requires
        !base.ignore_cache,
        age.spec_exceeds(max),
    ensures
        ({
            let cfg = base.with_max_age(max);
            &&& next_action(cfg, Lookup::Fetch, Event::Start) == Action::QueryAge
            &&& next_action(cfg, Lookup::Fetch, Event::AgeKnown(Some(age))) == Action::Remove
            &&& next_action(cfg, Lookup::Fetch, Event::Removed) == Action::Produce
            &&& next_action(cfg, Lookup::Fetch, Event::Produced) == Action::Store
            &&& next_action(cfg, Lookup::Fetch, Event::Stored) == Action::ReturnProduced
            &&& next_action(cfg, Lookup::Read, Event::Start) == Action::QueryAge
            &&& next_action(cfg, Lookup::Read, Event::AgeKnown(Some(age))) == Action::Remove
            &&& next_action(cfg, Lookup::Read, Event::Removed) == Action::ReturnNone
        }),
{
}

/// An entry no older than the maximum age is loaded, and a fetch that loads
/// it finishes with the cached value without calling the producer.
pub proof fn lemma_fresh_entry_is_served(base: TinyRefView, max: Age, age: Age)
    requires
        !base.ignore_cache,
        !age.spec_exceeds(max),
    ensures
        ({
            let cfg = base.with_max_age(max);
            &&& next_action(cfg, Lookup::Fetch, Event::AgeKnown(Some(age))) == Action::Load
            &&& next_action(cfg, Lookup::Fetch, Event::Loaded(None)) == Action::ReturnCached
        }),
{
}

/// With lookups bypassed, a fetch calls the producer at once, whatever is
/// stored, and writes the produced value back before returning it.
pub proof fn lemma_no_cache_always_produces(base: TinyRefView)
    ensures
        ({
            let cfg = base.without_lookup();
            &&& next_action(cfg, Lookup::Fetch, Event::Start) == Action::Produce
            &&& next_action(cfg, Lookup::Fetch, Event::Produced) == Action::Store
            &&& next_action(cfg, Lookup::Fetch, Event::Stored) == Action::ReturnProduced
        }),
{
}

/// An entry whose bytes do not decode is removed; a read then ends with
/// nothing and a fetch calls the producer.
pub proof fn lemma_corrupt_entry_is_removed(cfg: TinyRefView, mode: Lookup)
    ensures
        next_action(cfg, mode, Event::Loaded(Some(StoreErr::Ser))) == Action::Remove,
        next_action(cfg, Lookup::Read, Event::Removed) == Action::ReturnNone,
        next_action(cfg, Lookup::Fetch, Event::Removed) == Action::Produce,
{
}

/// An entry that cannot be read (missing, or refused by the file system) is
/// a miss, and is left in place.
pub proof fn lemma_unreadable_entry_is_a_miss(cfg: TinyRefView, mode: Lookup)
    ensures
        next_action(cfg, mode, Event::Loaded(Some(StoreErr::IO))) == on_miss(mode),
        next_action(cfg, mode, Event::Loaded(Some(StoreErr::Time))) == on_miss(mode),
{
}

/// Deriving a configuration changes only the field it is about.
pub proof fn lemma_derived_configurations(base: TinyRefView, max: Age)
    ensures
        base.with_max_age(max).cache_name == base.cache_name,
        base.with_max_age(max).ignore_cache == base.ignore_cache,
        base.with_max_age(max).max_age == Some(max),
        base.without_lookup().cache_name == base.cache_name,
        base.without_lookup().max_age == base.max_age,
        base.without_lookup().ignore_cache,
{
}

/// A fetch never ends without a value: every step of it leads to storage
/// work, the producer, or a cached or produced result.
pub proof fn lemma_fetch_never_ends_empty(cfg: TinyRefView, event: Event)
    ensures
        next_action(cfg, Lookup::Fetch, event) != Action::ReturnNone,
{
}

/// A plain read never calls the producer and never writes.
pub proof fn lemma_read_never_produces(cfg: TinyRefView, event: Event)
    requires
        event != Event::Produced,
        event != Event::Stored,
    ensures
        next_action(cfg, Lookup::Read, event) != Action::Produce,
        next_action(cfg, Lookup::Read, event) != Action::Store,
        next_action(cfg, Lookup::Read, event) != Action::ReturnProduced,
{
}

} // verus!

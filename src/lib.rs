//! A small on-disk cache: values live in one file per key, under a
//! directory named after the cache, and expire after an optional age.
//!
//! The library holds what the cache decides: the layout of entries on disk,
//! the lookup protocol (fresh, stale, missing, corrupt) and the derived
//! configurations. Reading and writing files is left to the caller, which
//! performs each action that the lookup protocol asks for and reports back
//! what happened.
use vstd::prelude::*;

pub mod age;
pub mod store;
pub mod cache;

pub use crate::age::Age;
pub use crate::cache::{Action, Event, Lookup, TinyRef, TinyRefView};
pub use crate::store::StoreErr;

verus! {

/// A cache in the default directory.
pub fn new() -> (r: TinyRef)
    ensures
        r@ == TinyRefView::named(crate::cache::default_cache_name()),
{
    TinyRef::new()
}

/// A cache in the directory `name`.
pub fn with_name(name: &str) -> (r: TinyRef)
    ensures
        r@ == TinyRefView::named(name@),
{
    TinyRef::with_name(name)
}

} // verus!

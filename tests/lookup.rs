use std::collections::HashMap;
use tiny_ref::{Action, Age, Event, Lookup, StoreErr, TinyRef};

/// Files in memory, each with the time it was last written, and a clock.
struct MemDisk {
    files: HashMap<String, (String, u64)>,
    now_ms: u64,
}

impl MemDisk {
    fn new() -> MemDisk {
        MemDisk { files: HashMap::new(), now_ms: 1_000 }
    }

    fn sleep(&mut self, ms: u64) {
        self.now_ms += ms;
    }

    fn age(&self, path: &str) -> Option<Age> {
        self.files.get(path).map(|(_, t)| Age::from_millis(self.now_ms - t))
    }

    fn put(&mut self, path: String, bytes: String) {
        self.files.insert(path, (bytes, self.now_ms));
    }
}

fn write(cache: &TinyRef, disk: &mut MemDisk, key: &str, v: &str) {
    disk.put(cache.entry_path(key), v.to_string());
}

fn item_age(cache: &TinyRef, disk: &MemDisk, key: &str) -> Option<Age> {
    disk.age(&cache.entry_path(key))
}

fn invalidate(cache: &TinyRef, disk: &mut MemDisk, key: &str) {
    disk.files.remove(&cache.entry_path(key));
}

/// Runs one lookup to its end; values are stored as their text, and
/// `calls` counts the producer's calls.
fn run<T: std::str::FromStr + ToString + Clone>(
    cache: &TinyRef,
    disk: &mut MemDisk,
    key: &str,
    mode: Lookup,
    producer: &dyn Fn() -> T,
    calls: &mut u32,
) -> Option<T> {
    let path = cache.entry_path(key);
    let mut event = Event::Start;
    let mut loaded: Option<T> = None;
    let mut produced: Option<T> = None;
    loop {
        event = match cache.step(mode, event) {
            Action::QueryAge => Event::AgeKnown(disk.age(&path)),
            Action::Load => match disk.files.get(&path) {
                None => Event::Loaded(Some(StoreErr::IO)),
                Some((bytes, _)) => match bytes.parse::<T>() {
                    Ok(v) => {
                        loaded = Some(v);
                        Event::Loaded(None)
                    }
                    Err(_) => Event::Loaded(Some(StoreErr::Ser)),
                },
            },
            Action::Remove => {
                disk.files.remove(&path);
                Event::Removed
            }
            Action::Produce => {
                *calls += 1;
                produced = Some(producer());
                Event::Produced
            }
            Action::Store => {
                let text = produced.clone().unwrap().to_string();
                disk.put(path.clone(), text);
                Event::Stored
            }
            Action::ReturnCached => return loaded,
            Action::ReturnProduced => return produced,
            Action::ReturnNone => return None,
        };
    }
}

fn read<T: std::str::FromStr + ToString + Clone>(
    cache: &TinyRef,
    disk: &mut MemDisk,
    key: &str,
) -> Option<T> {
    let mut calls = 0;
    let r = run(cache, disk, key, Lookup::Read, &|| unreachable!(), &mut calls);
    assert_eq!(calls, 0);
    r
}

#[test]
fn test_cache() {
    let tiny = TinyRef::new();
    let mut disk = MemDisk::new();
    let key = "testval";

    write(&tiny, &mut disk, key, "hello");
    let stored: String = read(&tiny, &mut disk, key).unwrap();
    assert_eq!(stored, "hello");

    disk.sleep(100);
    let age = item_age(&tiny, &disk, key).unwrap();
    println!("age {:?}", age);
    assert!(age.exceeds(&Age::from_millis(50)));

    invalidate(&tiny, &mut disk, key);
    assert_eq!(read::<String>(&tiny, &mut disk, key), None);
}

#[test]
fn end_to_end_staleness() {
    let facade = tiny_ref::with_name("test_cache").max_age(Age::from_millis(200));
    let mut disk = MemDisk::new();
    write(&facade, &mut disk, "k", "42");
    assert_eq!(read::<i32>(&facade, &mut disk, "k"), Some(42));
    disk.sleep(250);
    let mut calls = 0;
    let r = run(&facade, &mut disk, "k", Lookup::Fetch, &|| 99, &mut calls);
    assert_eq!(r, Some(99));
    assert_eq!(calls, 1);
    assert_eq!(read::<i32>(&facade, &mut disk, "k"), Some(99));
    assert_eq!(item_age(&facade, &disk, "k"), Some(Age::from_millis(0)));
}

#[test]
fn round_trip_write_then_read() {
    let t = TinyRef::with_name("c");
    let mut disk = MemDisk::new();
    write(&t, &mut disk, "k", "-17");
    assert_eq!(read::<i32>(&t, &mut disk, "k"), Some(-17));
}

#[test]
fn age_grows_with_time() {
    let t = TinyRef::with_name("c");
    let mut disk = MemDisk::new();
    write(&t, &mut disk, "k", "1");
    assert_eq!(item_age(&t, &disk, "k"), Some(Age::from_millis(0)));
    disk.sleep(30);
    assert_eq!(item_age(&t, &disk, "k"), Some(Age::from_millis(30)));
}

#[test]
fn fresh_entry_is_served_without_producer() {
    let t = TinyRef::with_name("c").max_age(Age::from_millis(200));
    let mut disk = MemDisk::new();
    write(&t, &mut disk, "k", "5");
    disk.sleep(200);
    let mut calls = 0;
    assert_eq!(run(&t, &mut disk, "k", Lookup::Fetch, &|| 6, &mut calls), Some(5));
    assert_eq!(calls, 0);
}

#[test]
fn stale_entry_read_is_evicted() {
    let t = TinyRef::with_name("c").max_age(Age::from_millis(200));
    let mut disk = MemDisk::new();
    write(&t, &mut disk, "k", "5");
    disk.sleep(201);
    assert_eq!(read::<i32>(&t, &mut disk, "k"), None);
    assert_eq!(item_age(&t, &disk, "k"), None);
}

#[test]
fn missing_entry_is_fetched_and_stored() {
    let t = TinyRef::with_name("c");
    let mut disk = MemDisk::new();
    let mut calls = 0;
    assert_eq!(run(&t, &mut disk, "k", Lookup::Fetch, &|| 7, &mut calls), Some(7));
    assert_eq!(calls, 1);
    assert_eq!(read::<i32>(&t, &mut disk, "k"), Some(7));
}

#[test]
fn corrupt_entry_heals_on_read() {
    let t = TinyRef::with_name("c");
    let mut disk = MemDisk::new();
    write(&t, &mut disk, "k", "not a number");
    assert_eq!(read::<i32>(&t, &mut disk, "k"), None);
    assert_eq!(item_age(&t, &disk, "k"), None);
}

#[test]
fn corrupt_entry_is_refetched() {
    let t = TinyRef::with_name("c");
    let mut disk = MemDisk::new();
    write(&t, &mut disk, "k", "x");
    let mut calls = 0;
    assert_eq!(run(&t, &mut disk, "k", Lookup::Fetch, &|| 3, &mut calls), Some(3));
    assert_eq!(calls, 1);
    assert_eq!(read::<i32>(&t, &mut disk, "k"), Some(3));
}

#[test]
fn invalidate_twice_is_harmless() {
    let t = TinyRef::with_name("c");
    let mut disk = MemDisk::new();
    invalidate(&t, &mut disk, "k");
    invalidate(&t, &mut disk, "k");
    assert_eq!(read::<i32>(&t, &mut disk, "k"), None);
}

#[test]
fn no_cache_always_produces_and_overwrites() {
    let base = TinyRef::with_name("c");
    let mut disk = MemDisk::new();
    write(&base, &mut disk, "k", "1");
    let bypass = base.no_cache();
    let mut calls = 0;
    assert_eq!(run(&bypass, &mut disk, "k", Lookup::Fetch, &|| 2, &mut calls), Some(2));
    assert_eq!(calls, 1);
    assert_eq!(read::<i32>(&base, &mut disk, "k"), Some(2));
}

#[test]
fn keys_are_isolated() {
    let t = TinyRef::with_name("c");
    let mut disk = MemDisk::new();
    write(&t, &mut disk, "a", "1");
    assert_eq!(read::<i32>(&t, &mut disk, "b"), None);
    assert_eq!(read::<i32>(&t, &mut disk, "a"), Some(1));
}

#[test]
fn caches_with_different_names_are_isolated() {
    let a = TinyRef::with_name("one");
    let b = TinyRef::with_name("two");
    let mut disk = MemDisk::new();
    write(&a, &mut disk, "k", "1");
    assert_eq!(read::<i32>(&b, &mut disk, "k"), None);
}

use tower_sesh::{CachingSessionStore, CachingStoreError, Id, MemoryStore, SessionStore};

#[derive(Clone, Debug, PartialEq)]
struct Record {
    data: String,
    visits: u32,
}

fn record(data: &str) -> Record {
    Record { data: data.to_string(), visits: 0 }
}

#[test]
fn test_create() {
    let mut store = MemoryStore::default();
    assert!(store.create(&record("a")).is_ok());
}

#[test]
fn test_save() {
    let mut store = MemoryStore::default();
    // Saving a session that was never created updates nothing.
    assert_eq!(store.save(&Id(7), &record("a")).unwrap(), false);
    assert_eq!(store.load(&Id(7)).unwrap(), None);
    let id = store.create(&record("a")).unwrap();
    assert_eq!(store.save(&id, &record("b")).unwrap(), true);
    assert_eq!(store.load(&id).unwrap(), Some(record("b")));
}

#[test]
fn test_load() {
    let mut store = MemoryStore::default();
    let id = store.create(&record("a")).unwrap();
    assert_eq!(store.load(&id).unwrap(), Some(record("a")));
}

#[test]
fn test_delete() {
    let mut store = MemoryStore::default();
    let id = store.create(&record("a")).unwrap();
    assert!(store.delete(&id).unwrap());
    assert_eq!(store.load(&id).unwrap(), None);
    assert!(!store.delete(&id).unwrap());
}

#[test]
fn test_create_id_collision() {
    let mut store = MemoryStore::default();
    let first = store.create(&record("a")).unwrap();
    let second = store.create(&record("b")).unwrap();
    assert_ne!(first, second);
    assert_eq!(store.load(&first).unwrap(), Some(record("a")));
    assert_eq!(store.load(&second).unwrap(), Some(record("b")));
}

#[test]
fn save_or_create_creates_at_the_given_id() {
    let mut store = MemoryStore::default();
    store.save_or_create(&Id(42), &record("x")).unwrap();
    assert_eq!(store.load(&Id(42)).unwrap(), Some(record("x")));
    store.save_or_create(&Id(42), &record("y")).unwrap();
    assert_eq!(store.load(&Id(42)).unwrap(), Some(record("y")));
}

#[test]
fn cycle_id_moves_the_record() {
    let mut store = MemoryStore::default();
    let old_id = store.create(&record("a")).unwrap();
    let new_id = store.cycle_id(&old_id).unwrap().unwrap();
    assert_ne!(old_id, new_id);
    assert_eq!(store.load(&old_id).unwrap(), None);
    assert_eq!(store.load(&new_id).unwrap(), Some(record("a")));
    assert_eq!(store.cycle_id(&old_id).unwrap(), None);
}

#[test]
fn many_sessions_get_distinct_ids() {
    let mut store = MemoryStore::default();
    let mut ids = Vec::new();
    for i in 0..200 {
        ids.push(store.create(&Record { data: String::new(), visits: i }).unwrap());
    }
    for (i, id) in ids.iter().enumerate() {
        assert_eq!(store.load(id).unwrap().unwrap().visits, i as u32);
    }
}

fn layered() -> CachingSessionStore<MemoryStore<Record>, MemoryStore<Record>> {
    CachingSessionStore::new(MemoryStore::default(), MemoryStore::default())
}

#[test]
fn caching_store_creates_in_both_layers() {
    let mut store = layered();
    let id = store.create(&record("a")).unwrap();
    assert_eq!(store.load(&id).unwrap(), Some(record("a")));
    assert!(store.save(&id, &record("b")).unwrap());
    assert_eq!(store.load(&id).unwrap(), Some(record("b")));
}

#[test]
fn caching_store_loads_from_backend_on_a_miss() {
    let mut cache = MemoryStore::default();
    let mut backend = MemoryStore::default();
    let id = backend.create(&record("backend")).unwrap();
    cache.save_or_create(&Id(5), &record("cached")).unwrap();
    backend.save_or_create(&Id(5), &record("stale")).unwrap();
    let mut store = CachingSessionStore::new(cache, backend);
    // A miss in the cache falls back to the backend.
    assert_eq!(store.load(&id).unwrap(), Some(record("backend")));
    // A hit in the cache wins over the backend.
    assert_eq!(store.load(&Id(5)).unwrap(), Some(record("cached")));
    assert_eq!(store.load(&Id(6)).unwrap(), None);
}

#[test]
fn caching_store_save_drops_a_session_the_backend_lacks() {
    let mut cache = MemoryStore::default();
    cache.save_or_create(&Id(9), &record("only cached")).unwrap();
    let mut store = CachingSessionStore::new(cache, MemoryStore::default());
    assert_eq!(store.save(&Id(9), &record("new")).unwrap(), false);
    assert_eq!(store.load(&Id(9)).unwrap(), None);
}

#[test]
fn caching_store_delete_and_cycle() {
    let mut store = layered();
    let id = store.create(&record("a")).unwrap();
    let new_id = store.cycle_id(&id).unwrap().unwrap();
    assert_eq!(store.load(&id).unwrap(), None);
    assert_eq!(store.load(&new_id).unwrap(), Some(record("a")));
    assert!(store.delete(&new_id).unwrap());
    assert_eq!(store.load(&new_id).unwrap(), None);
    assert!(!store.delete(&new_id).unwrap());
    store.save_or_create(&Id(1), &record("z")).unwrap();
    assert_eq!(store.load(&Id(1)).unwrap(), Some(record("z")));
}

#[test]
fn caching_store_errors_name_their_layer() {
    let cache_error: CachingStoreError<u8, u16> = CachingStoreError::Cache(1);
    let store_error: CachingStoreError<u8, u16> = CachingStoreError::Store(2);
    assert!(matches!(cache_error, CachingStoreError::Cache(1)));
    assert!(matches!(store_error, CachingStoreError::Store(2)));
}

use tower_sesh::middleware::record_update;
use tower_sesh::{CachingSessionStore, Duration, Expires, Expiry, Id, MemoryStore, Session, SessionStore, SessionUpdate};

#[derive(Debug, Clone, PartialEq)]
struct Counter(u32);

impl Expires for Counter {
    fn expires(&self) -> Expiry {
        Expiry::OnInactivity(Duration::seconds(10))
    }
}

#[test]
fn loading_without_an_id_finds_nothing_and_records_nothing() {
    let out = Session::new(None, MemoryStore::<Counter>::default()).load::<Counter>();
    assert!(out.result.unwrap().is_none());
    assert_eq!(out.update, None);
}

#[test]
fn loading_an_unknown_id_records_a_deletion() {
    let out = Session::new(Some(Id(3)), MemoryStore::<Counter>::default()).load::<Counter>();
    assert!(out.result.unwrap().is_none());
    assert_eq!(out.update, Some(SessionUpdate::Delete));
}

#[test]
fn loading_a_held_session_changes_no_cookie() {
    let mut store = MemoryStore::default();
    let id = store.create(&Counter(8)).unwrap();
    let out = Session::new(Some(id), store).load::<Counter>();
    assert_eq!(out.update, None);
    assert_eq!(out.result.unwrap().unwrap().data(), &Counter(8));
}

#[test]
fn create_records_the_new_id_and_the_data_expiry() {
    let out = Session::new(None, MemoryStore::default()).create(Counter(0));
    let state = out.result.unwrap();
    assert_eq!(state.data(), &Counter(0));
    assert_eq!(
        out.update,
        Some(SessionUpdate::SetCookie(state.id(), Expiry::OnInactivity(Duration::seconds(10))))
    );
    let id = state.id();
    let mut store = state.into_store();
    assert_eq!(store.load(&id).unwrap(), Some(Counter(0)));
}

#[test]
fn load_update_and_save_round_trip() {
    // First request: create.
    let state = Session::new(None, MemoryStore::default())
        .create_with_expiry(Counter(41), Expiry::OnSessionEnd)
        .result
        .unwrap();
    let id = state.id();
    let store = state.into_store();

    // Second request: load and update.
    let state = Session::new(Some(id), store).load::<Counter>().result.unwrap().unwrap();
    assert_eq!(state.data(), &Counter(41));
    let out = state.update(|c| c.0 += 1);
    let state = out.result.unwrap().unwrap();
    assert_eq!(state.data(), &Counter(42));
    assert_eq!(out.update, Some(SessionUpdate::SetCookie(id, Expiry::OnInactivity(Duration::seconds(10)))));
    let mut store = state.into_store();
    assert_eq!(store.load(&id).unwrap(), Some(Counter(42)));
}

#[test]
fn update_of_a_vanished_session_records_a_deletion() {
    // The cache still holds a session that the backend no longer does.
    let mut cache = MemoryStore::default();
    cache.save_or_create(&Id(11), &Counter(5)).unwrap();
    let store = CachingSessionStore::new(cache, MemoryStore::default());
    let state = Session::new(Some(Id(11)), store).load::<Counter>().result.unwrap().unwrap();
    assert_eq!(state.data(), &Counter(5));
    let out = state.update_with_expiry(|c| c.0 += 1, Expiry::OnSessionEnd);
    assert!(out.result.unwrap().is_none());
    assert_eq!(out.update, Some(SessionUpdate::Delete));
}

#[test]
fn delete_records_a_deletion() {
    let state = Session::new(None, MemoryStore::default()).create(Counter(1)).result.unwrap();
    let id = state.id();
    let store = state.into_store();
    let state = Session::new(Some(id), store).load::<Counter>().result.unwrap().unwrap();
    let out = state.delete();
    assert!(out.result.unwrap());
    assert_eq!(out.update, Some(SessionUpdate::Delete));
}

#[test]
fn cycle_moves_the_session_and_records_the_new_id() {
    let state = Session::new(None, MemoryStore::default()).create(Counter(3)).result.unwrap();
    let old_id = state.id();
    let store = state.into_store();
    let state = Session::new(Some(old_id), store).load::<Counter>().result.unwrap().unwrap();
    let out = state.cycle_with_expiry(Expiry::OnSessionEnd);
    let state = out.result.unwrap().unwrap();
    let new_id = state.id();
    assert_ne!(old_id, new_id);
    assert_eq!(state.data(), &Counter(3));
    assert_eq!(out.update, Some(SessionUpdate::SetCookie(new_id, Expiry::OnSessionEnd)));
    let mut store = state.into_store();
    assert_eq!(store.load(&old_id).unwrap(), None);
    assert_eq!(store.load(&new_id).unwrap(), Some(Counter(3)));
}

#[test]
fn cycle_uses_the_data_expiry() {
    let state = Session::new(None, MemoryStore::default()).create(Counter(3)).result.unwrap();
    let id = state.id();
    let state = Session::new(Some(id), state.into_store()).load::<Counter>().result.unwrap().unwrap();
    let out = state.cycle();
    let state = out.result.unwrap().unwrap();
    assert_eq!(
        out.update,
        Some(SessionUpdate::SetCookie(state.id(), Expiry::OnInactivity(Duration::seconds(10))))
    );
}

#[test]
fn a_failed_operation_keeps_the_pending_update() {
    let pending = Some(SessionUpdate::SetCookie(Id(4), Expiry::OnSessionEnd));
    assert_eq!(record_update(pending, None), pending);
    assert_eq!(record_update(pending, Some(SessionUpdate::Delete)), Some(SessionUpdate::Delete));
}

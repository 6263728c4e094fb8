//! The session-store contract, and a store that layers a cache over a backend.
//!
//! A store keeps session records by [`Id`]. Its methods return `Err` only for hard errors of
//! the backend; a missing session is a result, not an error.
use crate::id::Id;
use vstd::pervasive::cloned;
use vstd::prelude::*;

verus! {

/// `after` is `before` with the record at `id` set to a clone of `record`.
pub open spec fn stores_record<R: Clone>(
    before: Map<Id, R>,
    after: Map<Id, R>,
    id: Id,
    record: R,
) -> bool {
    &&& after == before.insert(id, after[id])
    &&& cloned(record, after[id])
}

/// `found` is what loading `id` from records `m` may give: a clone of the record held at
/// `id`, or `None` where there is none.
pub open spec fn loaded_record<R: Clone>(m: Map<Id, R>, id: Id, found: Option<R>) -> bool {
    match found {
        Some(record) => m.contains_key(id) && cloned(m[id], record),
        None => !m.contains_key(id),
    }
}

/// Loading `id` from records `before` gave `found` and left `after`: the same ids hold
/// records, and only the record at `id` may have been replaced, by a clone of what was found
/// (as a cache does when it keeps what it loaded).
pub open spec fn loads_record<R: Clone>(before: Map<Id, R>, after: Map<Id, R>, id: Id, found: Option<R>) -> bool {
    &&& loaded_record(before, id, found)
    &&& (after == before || (found matches Some(r) && after == before.insert(id, after[id]) && cloned(
        r,
        after[id],
    )))
}

/// `to` is `from`, a clone of it, or a clone of a clone of it.
pub open spec fn carried<R: Clone>(from: R, to: R) -> bool {
    ||| to == from
    ||| cloned(from, to)
    ||| exists|mid: R| cloned(from, mid) && #[trigger] cloned(mid, to)
}

/// `after` is `before` with `old_id` dropped and `new_id` added, as far as which ids hold
/// records and what every other id holds.
pub open spec fn moves_ids<R>(before: Map<Id, R>, after: Map<Id, R>, old_id: Id, new_id: Id) -> bool {
    &&& before.contains_key(old_id)
    &&& after.dom() == before.dom().insert(new_id).remove(old_id)
    &&& forall|k: Id| #[trigger] after.contains_key(k) && k != new_id ==> after[k] == before[k]
}

/// `after` is `before` with the session at `old_id` moved to `new_id`, an id that held no
/// record.
pub open spec fn moves_record<R>(before: Map<Id, R>, after: Map<Id, R>, old_id: Id, new_id: Id) -> bool {
    &&& moves_ids(before, after, old_id, new_id)
    &&& !before.contains_key(new_id)
}

/// Storage and retrieval of session records.
///
/// Every method may return `Err` for a hard error of the backend (a connection error, a
/// timeout, ...), and then nothing is stated of the records. What each `Ok` result states is
/// given by the method's contract, over [`SessionStore::records`]. A store may also hold an
/// invariant, [`SessionStore::well_formed`]; where the store is well formed before a call,
/// each method answers exactly whether the session existed, and a successful call keeps it
/// well formed.
pub trait SessionStore<R: Clone>: Sized {
    /// A hard error of the backend.
    type Error;

    /// The records that the store holds, by id, where the store models them (see
    /// [`SessionStore::models_records`]); otherwise a placeholder that nothing is stated of.
    open spec fn records(&self) -> Map<Id, R> {
        arbitrary()
    }

    /// The store's invariant; none unless the store states one.
    open spec fn well_formed(&self) -> bool {
        true
    }

    /// Whether the store defines [`SessionStore::records`], and with it the contracts of its
    /// methods. False unless a store states otherwise: a store written outside Verus (such as
    /// one shared between requests behind a lock) cannot, and then nothing is stated of its
    /// records.
    open spec fn models_records() -> bool {
        false
    }

    /// Whether the backend has no hard errors, so that every method returns `Ok`.
    ///
    /// False unless a store states otherwise; a store verified with this crate may state it,
    /// and its methods are then checked to return `Ok`.
    open spec fn never_fails() -> bool {
        false
    }

    /// Creates a session holding a clone of `record` and returns its id, a unique one: no
    /// session of a well-formed store held it.
    fn create(&mut self, record: &R) -> (result: Result<Id, Self::Error>)
        ensures
            Self::never_fails() ==> result is Ok,
            Self::models_records() ==> (result matches Ok(id) ==> stores_record(old(self).records(), final(self).records(), id, *record)),
            Self::models_records() ==> (result matches Ok(id) ==> (old(self).well_formed() ==> !old(self).records().contains_key(id)
                && final(self).well_formed())),
    ;

    /// Saves `record` for the existing session `id`.
    ///
    /// Returns whether the session existed and was updated. When it did not exist, no
    /// record is held at `id` afterwards.
    fn save(&mut self, id: &Id, record: &R) -> (result: Result<bool, Self::Error>)
        ensures
            Self::never_fails() ==> result is Ok,
            Self::models_records() ==> (result matches Ok(existed) ==> if existed {
                old(self).records().contains_key(*id)
                    && stores_record(old(self).records(), final(self).records(), *id, *record)
            } else {
                final(self).records() == old(self).records().remove(*id)
            }),
            Self::models_records() ==> (result matches Ok(existed) ==> (old(self).well_formed() ==> existed == old(self).records().contains_key(*id)
                && final(self).well_formed())),
    ;

    /// Saves `record` for session `id`, creating the session if it does not exist.
    fn save_or_create(&mut self, id: &Id, record: &R) -> (result: Result<(), Self::Error>)
        ensures
            Self::never_fails() ==> result is Ok,
            Self::models_records() ==> (result is Ok ==> stores_record(old(self).records(), final(self).records(), *id, *record)),
            Self::models_records() ==> (result is Ok ==> (old(self).well_formed() ==> final(self).well_formed())),
    ;

    /// Loads the record of session `id`: `None` when there is none.
    fn load(&mut self, id: &Id) -> (result: Result<Option<R>, Self::Error>)
        ensures
            Self::never_fails() ==> result is Ok,
            Self::models_records() ==> (result matches Ok(found) ==> loads_record(old(self).records(), final(self).records(), *id, found)),
            Self::models_records() ==> (result is Ok ==> (old(self).well_formed() ==> final(self).well_formed())),
    ;

    /// Deletes session `id`. Returns whether it existed.
    fn delete(&mut self, id: &Id) -> (result: Result<bool, Self::Error>)
        ensures
            Self::never_fails() ==> result is Ok,
            Self::models_records() ==> (result matches Ok(existed) ==> final(self).records() == old(self).records().remove(*id)
                && (existed ==> old(self).records().contains_key(*id))),
            Self::models_records() ==> (result matches Ok(existed) ==> (old(self).well_formed() ==> existed == old(self).records().contains_key(*id)
                && final(self).well_formed())),
    ;

    /// Moves the record of session `old_id` to a new id, and returns the new id; `None` when
    /// the session does not exist.
    ///
    /// By default this loads the record, creates a session with it and deletes the old one.
    fn cycle_id(&mut self, old_id: &Id) -> (result: Result<Option<Id>, Self::Error>)
        ensures
            Self::never_fails() ==> result is Ok,
            Self::models_records() ==> (result matches Ok(moved) ==> match moved {
                Some(new_id) => moves_ids(old(self).records(), final(self).records(), *old_id, new_id),
                None => final(self).records() == old(self).records().remove(*old_id),
            }),
            Self::models_records() ==> (result matches Ok(moved) ==> (old(self).well_formed() ==> final(self).well_formed() && match moved {
                Some(new_id) => moves_record(old(self).records(), final(self).records(), *old_id, new_id),
                None => !old(self).records().contains_key(*old_id),
            })),
        default_ensures
            // The default moves a clone of the record itself.
            Self::models_records() ==> (result matches Ok(Some(new_id)) ==> (old(self).well_formed() ==> carried(
                old(self).records()[*old_id],
                final(self).records()[new_id],
            ))),
    {
        let ghost start = self.records();
        let ghost start_wf = self.well_formed();
        let found = match self.load(old_id) {
            Ok(found) => found,
            Err(error) => return Err(error),
        };
        match found {
            Some(record) => {
                let ghost before = self.records();
                let new_id = match self.create(&record) {
                    Ok(new_id) => new_id,
                    Err(error) => return Err(error),
                };
                let ghost middle = self.records();
                match self.delete(old_id) {
                    Ok(_) => {},
                    Err(error) => return Err(error),
                }
                proof {
                    if Self::models_records() {
                        assert(before.dom() =~= start.dom());
                        assert(self.records().dom() =~= start.dom().insert(new_id).remove(*old_id));
                        assert forall|k: Id| #[trigger] self.records().contains_key(k) && k != new_id
                            implies self.records()[k] == start[k] by {
                            assert(middle == before.insert(new_id, middle[new_id]));
                        }
                        if start_wf {
                            assert(new_id != *old_id);
                            assert(self.records()[new_id] == middle[new_id]);
                            assert(cloned(start[*old_id], record));
                            assert(cloned(record, self.records()[new_id]));
                        }
                    }
                }
                Ok(Some(new_id))
            },
            None => {
                proof {
                    if Self::models_records() {
                        assert(self.records() =~= start.remove(*old_id));
                    }
                }
                Ok(None)
            },
        }
    }
}

/// An error of either layer of a [`CachingSessionStore`].
#[derive(Debug)]
pub enum CachingStoreError<CacheError, StoreError> {
    /// An error of the cache.
    Cache(CacheError),
    /// An error of the backend store.
    Store(StoreError),
}

/// A layered store: a cache as the frontend and a store as the backend.
///
/// Once cached, reads need only the frontend. A record in the cache is what a load returns,
/// so the records of the layered store are those of the backend, overridden by those of the
/// cache. The layered store is well formed when every session the cache holds, the backend
/// holds too; a cache and a backend that start so stay so.
#[derive(Debug, Clone)]
pub struct CachingSessionStore<Cache, Store> {
    cache: Cache,
    store: Store,
}

impl<Cache, Store> CachingSessionStore<Cache, Store> {
    /// The frontend.
    pub closed spec fn cache_layer(self) -> Cache {
        self.cache
    }

    /// The backend.
    pub closed spec fn store_layer(self) -> Store {
        self.store
    }

    /// Creates a layered store from a cache and a backend store.
    pub fn new(cache: Cache, store: Store) -> (layered: Self)
        ensures
            layered.cache_layer() == cache,
            layered.store_layer() == store,
    {
        CachingSessionStore { cache, store }
    }
}

/// The records of a layered store: those of the backend, overridden by those of the cache.
pub open spec fn layered_records<R>(cache: Map<Id, R>, store: Map<Id, R>) -> Map<Id, R> {
    store.union_prefer_right(cache)
}

impl<R: Clone, Cache: SessionStore<R>, Store: SessionStore<R>> SessionStore<R> for CachingSessionStore<
    Cache,
    Store,
> {
    type Error = CachingStoreError<Cache::Error, Store::Error>;

    open spec fn records(&self) -> Map<Id, R> {
        layered_records(self.cache_layer().records(), self.store_layer().records())
    }

    /// The layered store fails only where one of its layers does.
    open spec fn never_fails() -> bool {
        Cache::never_fails() && Store::never_fails()
    }

    /// The layered store models its records where both layers do.
    open spec fn models_records() -> bool {
        Cache::models_records() && Store::models_records()
    }

    /// Both layers are well formed, and every session the cache holds, the backend holds.
    open spec fn well_formed(&self) -> bool {
        &&& self.cache_layer().well_formed()
        &&& self.store_layer().well_formed()
        &&& self.cache_layer().records().dom().subset_of(self.store_layer().records().dom())
    }

    /// Creates the session in the backend, then saves it under the same id in the cache.
    fn create(&mut self, record: &R) -> (result: Result<Id, Self::Error>) {
        let ghost c0 = self.cache.records();
        let ghost s0 = self.store.records();
        let id = match self.store.create(record) {
            Ok(id) => id,
            Err(error) => return Err(CachingStoreError::Store(error)),
        };
        match self.cache.save_or_create(&id, record) {
            Ok(()) => {},
            Err(error) => return Err(CachingStoreError::Cache(error)),
        }
        proof {
            if Self::models_records() {
                let c1 = self.cache.records();
                let s1 = self.store.records();
                assert(c1 == c0.insert(id, c1[id]));
                assert(s1 == s0.insert(id, s1[id]));
                assert(layered_records(c1, s1) =~= layered_records(c0, s0).insert(id, c1[id]));
                assert(c1.dom() =~= c0.dom().insert(id));
                assert(s1.dom() =~= s0.dom().insert(id));
            }
        }
        Ok(id)
    }

    /// Saves in both layers, and drops the cached record of a session that the backend does
    /// not hold. Returns whether the backend held the session.
    fn save(&mut self, id: &Id, record: &R) -> (result: Result<bool, Self::Error>)
        ensures
            Self::models_records() ==> (result matches Ok(existed) ==> (old(self).store_layer().well_formed()
                ==> existed == old(self).store_layer().records().contains_key(*id))),
            Self::models_records() ==> (result matches Ok(existed) ==> (!existed
                ==> !final(self).cache_layer().records().contains_key(*id))),
    {
        let ghost c0 = self.cache.records();
        let ghost s0 = self.store.records();
        let exists_cache = match self.cache.save(id, record) {
            Ok(existed) => existed,
            Err(error) => return Err(CachingStoreError::Cache(error)),
        };
        let exists_store = match self.store.save(id, record) {
            Ok(existed) => existed,
            Err(error) => return Err(CachingStoreError::Store(error)),
        };
        let ghost c1 = self.cache.records();
        if !exists_store && exists_cache {
            match self.cache.delete(id) {
                Ok(_) => {},
                Err(error) => return Err(CachingStoreError::Cache(error)),
            }
        }
        proof {
            if Self::models_records() {
                let c2 = self.cache.records();
                let s2 = self.store.records();
                let before = layered_records(c0, s0);
                if exists_store {
                    assert(s2 == s0.insert(*id, s2[*id]));
                    assert(s2.dom() =~= s0.dom());
                    if exists_cache {
                        assert(c2 == c0.insert(*id, c2[*id]));
                        assert(c2.dom() =~= c0.dom());
                        assert(layered_records(c2, s2) =~= before.insert(*id, c2[*id]));
                    } else {
                        assert(c2 =~= c0.remove(*id));
                        assert(layered_records(c2, s2) =~= before.insert(*id, s2[*id]));
                    }
                } else {
                    assert(c2 =~= c0.remove(*id)) by {
                        if exists_cache {
                            assert(c1 == c0.insert(*id, c1[*id]));
                        }
                    }
                    assert(layered_records(c2, s2) =~= before.remove(*id));
                }
            }
        }
        Ok(exists_store)
    }

    /// Saves in both layers, creating the session where it does not exist.
    fn save_or_create(&mut self, id: &Id, record: &R) -> (result: Result<(), Self::Error>) {
        let ghost c0 = self.cache.records();
        let ghost s0 = self.store.records();
        match self.cache.save_or_create(id, record) {
            Ok(()) => {},
            Err(error) => return Err(CachingStoreError::Cache(error)),
        }
        match self.store.save_or_create(id, record) {
            Ok(()) => {},
            Err(error) => return Err(CachingStoreError::Store(error)),
        }
        proof {
            if Self::models_records() {
                let c1 = self.cache.records();
                let s1 = self.store.records();
                assert(c1 == c0.insert(*id, c1[*id]));
                assert(s1 == s0.insert(*id, s1[*id]));
                assert(layered_records(c1, s1) =~= layered_records(c0, s0).insert(*id, c1[*id]));
                assert(c1.dom() =~= c0.dom().insert(*id));
                assert(s1.dom() =~= s0.dom().insert(*id));
            }
        }
        Ok(())
    }

    /// Loads from the cache; on a miss, loads from the backend and keeps what it found in the
    /// cache.
    fn load(&mut self, id: &Id) -> (result: Result<Option<R>, Self::Error>)
        ensures
            // A session found is held by the cache afterwards.
            Self::models_records() ==> (result matches Ok(Some(_)) ==> final(self).cache_layer().records().contains_key(*id)),
    {
        let ghost c0 = self.cache.records();
        let ghost s0 = self.store.records();
        let ghost before = layered_records(c0, s0);
        match self.cache.load(id) {
            Ok(Some(record)) => {
                proof {
                    if Self::models_records() {
                        let c1 = self.cache.records();
                        assert(c1.dom() =~= c0.dom());
                        if c1 != c0 {
                            assert(layered_records(c1, s0) =~= before.insert(*id, c1[*id]));
                        }
                    }
                }
                Ok(Some(record))
            },
            Ok(None) => {
                let found = match self.store.load(id) {
                    Ok(found) => found,
                    Err(error) => return Err(CachingStoreError::Store(error)),
                };
                let ghost s1 = self.store.records();
                match &found {
                    Some(record) => {
                        match self.cache.save_or_create(id, record) {
                            Ok(()) => {},
                            Err(error) => return Err(CachingStoreError::Cache(error)),
                        }
                        proof {
                            if Self::models_records() {
                                let c2 = self.cache.records();
                                assert(c2 == c0.insert(*id, c2[*id]));
                                assert(s1.dom() =~= s0.dom());
                                assert(c2.dom() =~= c0.dom().insert(*id));
                                assert(layered_records(c2, s1) =~= before.insert(*id, c2[*id]));
                            }
                        }
                    },
                    None => {
                        proof {
                            if Self::models_records() {
                                assert(layered_records(self.cache.records(), s1) =~= before);
                            }
                        }
                    },
                }
                Ok(found)
            },
            Err(error) => Err(CachingStoreError::Cache(error)),
        }
    }

    /// Deletes from both layers. Returns whether the backend held the session.
    fn delete(&mut self, id: &Id) -> (result: Result<bool, Self::Error>) {
        let ghost c0 = self.cache.records();
        let ghost s0 = self.store.records();
        match self.cache.delete(id) {
            Ok(_) => {},
            Err(error) => return Err(CachingStoreError::Cache(error)),
        }
        let in_store = match self.store.delete(id) {
            Ok(existed) => existed,
            Err(error) => return Err(CachingStoreError::Store(error)),
        };
        proof {
            if Self::models_records() {
                assert(layered_records(self.cache.records(), self.store.records()) =~= layered_records(
                    c0,
                    s0,
                ).remove(*id));
            }
        }
        Ok(in_store)
    }

    /// Drops the cached record and moves the backend's record to a new id.
    fn cycle_id(&mut self, old_id: &Id) -> (result: Result<Option<Id>, Self::Error>) {
        let ghost c0 = self.cache.records();
        let ghost s0 = self.store.records();
        match self.cache.delete(old_id) {
            Ok(_) => {},
            Err(error) => return Err(CachingStoreError::Cache(error)),
        }
        let moved = match self.store.cycle_id(old_id) {
            Ok(moved) => moved,
            Err(error) => return Err(CachingStoreError::Store(error)),
        };
        proof {
            if Self::models_records() {
                let c1 = self.cache.records();
                let s1 = self.store.records();
                let before = layered_records(c0, s0);
                let after = layered_records(c1, s1);
                match moved {
                    Some(new_id) => {
                        assert(after.dom() =~= before.dom().insert(new_id).remove(*old_id));
                    },
                    None => {
                        assert(after =~= before.remove(*old_id));
                    },
                }
            }
        }
        Ok(moved)
    }
}

} // verus!

//! A session store that lives in memory.
use crate::id::{random_i128, Id};
use crate::session_store::{loaded_record, moves_record, stores_record, SessionStore};
use std::collections::HashMap;
use vstd::pervasive::cloned;
use vstd::prelude::*;
use vstd::set_lib::{lemma_int_range, lemma_len_subset, lemma_map_size, set_int_range};

verus! {

broadcast use vstd::std_specs::hash::group_hash_axioms;

/// How many random ids are drawn before the free id after the last draw is probed for.
const RANDOM_DRAWS: u32 = 64;

/// The `step`-th id after `start`, counting on from `i128::MAX` to `i128::MIN`.
pub open spec fn probe(start: i128, step: int) -> i128 {
    if start + step > i128::MAX {
        (start + step - 0x1_0000_0000_0000_0000_0000_0000_0000_0000) as i128
    } else {
        (start + step) as i128
    }
}

/// The records of a map by raw id, by [`Id`].
pub open spec fn records_by_id<R>(m: Map<i128, R>) -> Map<Id, R> {
    Map::new(|id: Id| m.contains_key(id.0), |id: Id| m[id.0])
}

/// A session store that lives in memory.
///
/// This is useful for testing but not recommended for real applications.
#[derive(Clone, Debug)]
pub struct MemoryStore<R> {
    sessions: HashMap<i128, R>,
}

impl<R> MemoryStore<R> {
    /// The records held, by raw id.
    pub closed spec fn raw_records(self) -> Map<i128, R> {
        self.sessions@
    }

    /// An empty store.
    pub fn new() -> (store: Self)
        ensures
            store.raw_records() == Map::<i128, R>::empty(),
    {
        MemoryStore { sessions: HashMap::new() }
    }

    /// An id that no session of the store holds.
    ///
    /// The id is drawn at random; should every one of a number of draws be taken, the first
    /// free id after the last draw is taken.
    fn free_id(&self) -> (id: Id)
        ensures
            !self.raw_records().contains_key(id.0),
    {
        let mut candidate = random_i128();
        let mut draws: u32 = 1;
        while self.sessions.contains_key(&candidate) && draws < RANDOM_DRAWS
            invariant
                draws <= RANDOM_DRAWS,
            decreases RANDOM_DRAWS - draws,
        {
            candidate = random_i128();
            draws = draws + 1;
        }
        let ghost start = candidate;
        let held = self.sessions.len();
        let mut step: usize = 0;
        proof {
            assert(probe(start, 0) == start);
        }
        while self.sessions.contains_key(&candidate)
            invariant
                candidate == probe(start, step as int),
                step <= self.sessions@.len(),
                self.sessions@.len() == held,
                forall|j: int| 0 <= j < step ==> #[trigger] self.sessions@.contains_key(probe(start, j)),
            decreases self.sessions@.len() - step,
        {
            proof {
                self.lemma_probes_bound(start, step as int + 1);
            }
            step = step + 1;
            candidate = if candidate == i128::MAX {
                i128::MIN
            } else {
                candidate + 1
            };
        }
        Id(candidate)
    }

    /// Distinct probes that all hold records are no more than the records.
    proof fn lemma_probes_bound(&self, start: i128, n: int)
        requires
            0 <= n,
            n <= self.sessions@.len() + 1,
            self.sessions@.len() <= usize::MAX,
            forall|j: int| 0 <= j < n ==> #[trigger] self.sessions@.contains_key(probe(start, j)),
        ensures
            n <= self.sessions@.len(),
    {
        let domain = set_int_range(0, n);
        let f = |j: int| probe(start, j);
        let image = domain.map(f);
        lemma_int_range(0, n);
        assert forall|a: int, b: int| domain.contains(a) && domain.contains(b) && f(a) == f(b)
            implies a == b by {}
        assert forall|y: i128| image.contains(y) implies exists|x: int| domain.contains(x) && f(x) == y by {}
        assert forall|x: int| domain.contains(x) implies image.contains(f(x)) by {}
        lemma_map_size(domain, image, f);
        assert(image.subset_of(self.sessions@.dom()));
        lemma_len_subset(image, self.sessions@.dom());
    }
}

impl<R> Default for MemoryStore<R> {
    fn default() -> (store: Self)
        ensures
            store.raw_records() == Map::<i128, R>::empty(),
    {
        MemoryStore::new()
    }
}

impl<R: Clone> SessionStore<R> for MemoryStore<R> {
    /// The store never fails.
    type Error = std::convert::Infallible;

    open spec fn records(&self) -> Map<Id, R> {
        records_by_id(self.raw_records())
    }

    /// The store models its records.
    open spec fn models_records() -> bool {
        true
    }

    /// The store has no hard errors.
    open spec fn never_fails() -> bool {
        true
    }

    /// Stores a clone of `record` under a random id that no session holds.
    fn create(&mut self, record: &R) -> (result: Result<Id, Self::Error>)
        ensures
            result matches Ok(id) && !old(self).records().contains_key(id) && stores_record(
                old(self).records(),
                final(self).records(),
                id,
                *record,
            ),
    {
        let id = self.free_id();
        self.sessions.insert(id.0, record.clone());
        assert(records_by_id(self.sessions@) =~= records_by_id(old(self).sessions@).insert(
            id,
            self.sessions@[id.0],
        ));
        Ok(id)
    }

    /// Stores a clone of `record` at `id` only where a session holds it.
    fn save(&mut self, id: &Id, record: &R) -> (result: Result<bool, Self::Error>)
        ensures
            result matches Ok(existed) && existed == old(self).records().contains_key(*id),
            result == Ok::<bool, Self::Error>(false) ==> final(self).records() == old(self).records(),
    {
        if self.sessions.contains_key(&id.0) {
            self.sessions.insert(id.0, record.clone());
            assert(records_by_id(self.sessions@) =~= records_by_id(old(self).sessions@).insert(
                *id,
                self.sessions@[id.0],
            ));
            Ok(true)
        } else {
            assert(records_by_id(self.sessions@) =~= records_by_id(old(self).sessions@).remove(*id));
            Ok(false)
        }
    }

    /// Stores a clone of `record` at `id`.
    fn save_or_create(&mut self, id: &Id, record: &R) -> (result: Result<(), Self::Error>)
        ensures
            result is Ok,
    {
        self.sessions.insert(id.0, record.clone());
        assert(records_by_id(self.sessions@) =~= records_by_id(old(self).sessions@).insert(
            *id,
            self.sessions@[id.0],
        ));
        Ok(())
    }

    /// A clone of the record at `id`.
    fn load(&mut self, id: &Id) -> (result: Result<Option<R>, Self::Error>)
        ensures
            result is Ok,
    {
        match self.sessions.get(&id.0) {
            Some(record) => Ok(Some(record.clone())),
            None => Ok(None),
        }
    }

    /// Removes the record at `id`.
    fn delete(&mut self, id: &Id) -> (result: Result<bool, Self::Error>)
        ensures
            result matches Ok(existed) && existed == old(self).records().contains_key(*id),
    {
        let removed = self.sessions.remove(&id.0);
        assert(records_by_id(self.sessions@) =~= records_by_id(old(self).sessions@).remove(*id));
        Ok(removed.is_some())
    }

    /// Moves the record at `old_id` itself, not a clone, to a random id that no session holds,
    /// the old id included.
    fn cycle_id(&mut self, old_id: &Id) -> (result: Result<Option<Id>, Self::Error>)
        ensures
            result is Ok,
            result matches Ok(moved) && (moved is Some <==> old(self).records().contains_key(*old_id)),
            result matches Ok(Some(new_id)) ==> !old(self).records().contains_key(new_id)
                && final(self).records() == old(self).records().remove(*old_id).insert(
                new_id,
                old(self).records()[*old_id],
            ),
    {
        if self.sessions.contains_key(&old_id.0) {
            let new_id = self.free_id();
            match self.sessions.remove(&old_id.0) {
                Some(record) => {
                    self.sessions.insert(new_id.0, record);
                    assert(records_by_id(self.sessions@) =~= records_by_id(old(self).sessions@).remove(
                        *old_id,
                    ).insert(new_id, old(self).sessions@[old_id.0]));
                    assert(records_by_id(self.sessions@).dom() =~= records_by_id(
                        old(self).sessions@,
                    ).dom().insert(new_id).remove(*old_id));
                    Ok(Some(new_id))
                },
                None => Ok(None),
            }
        } else {
            assert(records_by_id(self.sessions@) =~= records_by_id(old(self).sessions@).remove(*old_id));
            Ok(None)
        }
    }
}

} // verus!

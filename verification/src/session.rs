//! The session given to request handlers, and the loaded session state.
//!
//! A [`Session`] is lazy: it holds the id from the request's cookie (if any) and a store.
//! Loading or creating it gives a [`SessionState`], whose methods save, delete or cycle the
//! session. Every operation hands back, beside its result, the [`SessionUpdate`] that the
//! response's cookie must carry, if any: the middleware keeps the last one of a request and
//! sets the cookie from it.
use crate::expires::{Expires, Expiry};
use crate::id::Id;
use crate::session_store::{loads_record, moves_ids, moves_record, stores_record, SessionStore};
use vstd::prelude::*;

verus! {

/// A change to a session that the response's cookie must carry.
#[derive(Debug, Clone, Copy, PartialEq, Eq, Structural)]
pub enum SessionUpdate {
    /// The session was deleted: the cookie is to be removed.
    Delete,
    /// The session has this id and expiry: the cookie is to be set.
    SetCookie(Id, Expiry),
}

/// The result of a session operation, and the update it makes to the response's cookie: the
/// middleware records it, replacing the update of any earlier operation of the request, and
/// keeps the earlier one where it is `None`.
#[derive(Debug)]
pub struct Outcome<T> {
    /// What the operation returns.
    pub result: T,
    /// The update for the response's cookie, if the operation makes one.
    pub update: Option<SessionUpdate>,
}

/// A session that is lazily loaded.
///
/// It is provided through a request's extensions by the session middleware. Its id is `None`
/// if the request had no session cookie or the cookie's value is not the text of an id.
///
/// When a method refers to "the underlying store error", it means that the store returned a
/// hard error (a connection error, a timeout, ...). A session not found in the store is not
/// an error.
#[derive(Debug, Clone)]
pub struct Session<Store> {
    id: Option<Id>,
    store: Store,
}

/// A loaded session.
#[derive(Debug, Clone)]
pub struct SessionState<R, Store> {
    store: Store,
    id: Id,
    data: R,
}

impl<Store> Session<Store> {
    /// The id from the request's cookie.
    pub closed spec fn spec_id(self) -> Option<Id> {
        self.id
    }

    /// The store.
    pub closed spec fn spec_store(self) -> Store {
        self.store
    }

    /// A session for the given cookie id and store.
    pub fn new(id: Option<Id>, store: Store) -> (session: Self)
        ensures
            session.spec_id() == id,
            session.spec_store() == store,
    {
        Session { id, store }
    }

    /// Tries to load the session from the store.
    ///
    /// Returns `Ok(None)` if the request had no session id or the store holds no session with
    /// it; the latter makes a deletion, so that the cookie is removed.
    ///
    /// # Error
    ///
    /// Errors if the underlying store errors.
    pub fn load<R: Clone>(self) -> (out: Outcome<Result<Option<SessionState<R, Store>>, Store::Error>>) where
        Store: SessionStore<R>,

        ensures
            // A store without hard errors never makes this fail.
            Store::never_fails() ==> out.result is Ok,
            match out.result {
                Ok(Some(state)) => {
                    &&& self.spec_id() == Some(state.spec_id())
                    &&& Store::models_records() ==> loads_record(
                        self.spec_store().records(),
                        state.spec_store().records(),
                        state.spec_id(),
                        Some(state.spec_data()),
                    ) && (self.spec_store().well_formed() ==> state.spec_store().well_formed())
                },
                Ok(None) => match self.spec_id() {
                    Some(id) => Store::models_records() ==> !self.spec_store().records().contains_key(id),
                    None => true,
                },
                Err(_) => self.spec_id() is Some,
            },
            // An id that the store does not hold has its cookie removed; nothing else changes
            // the cookie.
            out.update == (if self.spec_id() is Some && out.result matches Ok(None) {
                Some(SessionUpdate::Delete)
            } else {
                None::<SessionUpdate>
            }),
    {
        let mut this = self;
        match this.id {
            Some(id) => {
                match this.store.load(&id) {
                    Ok(Some(record)) => Outcome {
                        result: Ok(Some(SessionState { store: this.store, id, data: record })),
                        update: None,
                    },
                    Ok(None) => Outcome { result: Ok(None), update: Some(SessionUpdate::Delete) },
                    Err(error) => Outcome { result: Err(error), update: None },
                }
            },
            None => Outcome { result: Ok(None), update: None },
        }
    }

    /// Creates a new session with the given data, with the expiry that the data's
    /// [`Expires`] impl gives; the cookie is set to the new id and that expiry.
    ///
    /// # Error
    ///
    /// Errors if the underlying store errors.
    pub fn create<R: Clone + Expires>(self, data: R) -> (out: Outcome<Result<SessionState<R, Store>, Store::Error>>) where
        Store: SessionStore<R>,

        ensures
            // A store without hard errors never makes this fail.
            Store::never_fails() ==> out.result is Ok,
            match out.result {
                Ok(state) => {
                    &&& state.spec_data() == data
                    &&& Store::models_records() ==> stores_record(
                        self.spec_store().records(),
                        state.spec_store().records(),
                        state.spec_id(),
                        data,
                    ) && (self.spec_store().well_formed() ==> !self.spec_store().records().contains_key(
                        state.spec_id(),
                    ) && state.spec_store().well_formed())
                    &&& out.update matches Some(SessionUpdate::SetCookie(id, exp)) && id == state.spec_id()
                        && call_ensures(R::expires, (&data,), exp)
                },
                Err(_) => out.update is None,
            },
    {
        let exp = data.expires();
        self.create_with_expiry(data, exp)
    }

    /// Creates a new session with the given data and expiry; the cookie is set to the new id
    /// and the expiry.
    ///
    /// # Error
    ///
    /// Errors if the underlying store errors.
    pub fn create_with_expiry<R: Clone>(self, data: R, exp: Expiry) -> (out: Outcome<
        Result<SessionState<R, Store>, Store::Error>,
    >) where Store: SessionStore<R>,

        ensures
            // A store without hard errors never makes this fail.
            Store::never_fails() ==> out.result is Ok,
            match out.result {
                Ok(state) => {
                    &&& state.spec_data() == data
                    &&& Store::models_records() ==> stores_record(
                        self.spec_store().records(),
                        state.spec_store().records(),
                        state.spec_id(),
                        data,
                    ) && (self.spec_store().well_formed() ==> !self.spec_store().records().contains_key(
                        state.spec_id(),
                    ) && state.spec_store().well_formed())
                    &&& out.update == Some(SessionUpdate::SetCookie(state.spec_id(), exp))
                },
                Err(_) => out.update is None,
            },
    {
        let mut this = self;
        match this.store.create(&data) {
            Ok(id) => Outcome {
                result: Ok(SessionState { store: this.store, id, data }),
                update: Some(SessionUpdate::SetCookie(id, exp)),
            },
            Err(error) => Outcome { result: Err(error), update: None },
        }
    }
}

impl<R, Store> SessionState<R, Store> {
    /// The session's id.
    pub closed spec fn spec_id(self) -> Id {
        self.id
    }

    /// The session's data.
    pub closed spec fn spec_data(self) -> R {
        self.data
    }

    /// The store.
    pub closed spec fn spec_store(self) -> Store {
        self.store
    }

    /// Reads the data associated with the session.
    pub fn data(&self) -> (data: &R)
        ensures
            *data == self.spec_data(),
    {
        &self.data
    }

    /// The session's id.
    pub fn id(&self) -> (id: Id)
        ensures
            id == self.spec_id(),
    {
        self.id
    }

    /// Gets the session store.
    pub fn into_store(self) -> (store: Store)
        ensures
            store == self.spec_store(),
    {
        self.store
    }
}

impl<R: Clone, Store: SessionStore<R>> SessionState<R, Store> {
    /// Updates the session data and saves it, with the expiry that the data's [`Expires`]
    /// impl gives before the update; see [`SessionState::update_with_expiry`].
    ///
    /// # Error
    ///
    /// Errors if the underlying store errors.
    pub fn update<F: FnOnce(&mut R)>(self, update: F) -> (out: Outcome<
        Result<Option<SessionState<R, Store>>, Store::Error>,
    >) where R: Expires,

        requires
            forall|data: &mut R| update.requires((data,)),
        ensures
            // A store without hard errors never makes this fail.
            Store::never_fails() ==> out.result is Ok,
            match out.result {
                Ok(Some(state)) => {
                    &&& state.spec_id() == self.spec_id()
                    &&& Store::models_records() ==> self.spec_store().records().contains_key(self.spec_id())
                        && stores_record(
                        self.spec_store().records(),
                        state.spec_store().records(),
                        state.spec_id(),
                        state.spec_data(),
                    ) && (self.spec_store().well_formed() ==> state.spec_store().well_formed())
                    // The data saved is what `update` made of the session's data.
                    &&& exists|data: &mut R| #[trigger] update.ensures((data,), ())
                        && *data == self.spec_data() && *final(data) == state.spec_data()
                    &&& out.update matches Some(SessionUpdate::SetCookie(id, exp)) && id == self.spec_id()
                        && call_ensures(R::expires, (&self.spec_data(),), exp)
                },
                // `Ok(None)` comes only for a session that the store no longer holds, and its
                // cookie is removed.
                Ok(None) => {
                    &&& Store::models_records() && self.spec_store().well_formed() ==> !self.spec_store().records().contains_key(
                        self.spec_id(),
                    )
                    &&& out.update == Some(SessionUpdate::Delete)
                },
                Err(_) => out.update is None,
            },
    {
        let exp = self.data.expires();
        self.update_with_expiry(update, exp)
    }

    /// Updates the session data with `update` and saves it; the cookie is set to the id and
    /// `exp`.
    ///
    /// Returns the session if it was saved, and `Ok(None)` when the session was deleted or
    /// expired between the time it was loaded and this call; then the cookie is removed.
    ///
    /// # Error
    ///
    /// Errors if the underlying store errors.
    pub fn update_with_expiry<F: FnOnce(&mut R)>(self, update: F, exp: Expiry) -> (out: Outcome<
        Result<Option<SessionState<R, Store>>, Store::Error>,
    >)
        requires
            forall|data: &mut R| update.requires((data,)),
        ensures
            // A store without hard errors never makes this fail.
            Store::never_fails() ==> out.result is Ok,
            match out.result {
                Ok(Some(state)) => {
                    &&& state.spec_id() == self.spec_id()
                    &&& Store::models_records() ==> self.spec_store().records().contains_key(self.spec_id())
                        && stores_record(
                        self.spec_store().records(),
                        state.spec_store().records(),
                        state.spec_id(),
                        state.spec_data(),
                    ) && (self.spec_store().well_formed() ==> state.spec_store().well_formed())
                    // The data saved is what `update` made of the session's data.
                    &&& exists|data: &mut R| #[trigger] update.ensures((data,), ())
                        && *data == self.spec_data() && *final(data) == state.spec_data()
                    &&& out.update == Some(SessionUpdate::SetCookie(self.spec_id(), exp))
                },
                // `Ok(None)` comes only for a session that the store no longer holds, and its
                // cookie is removed.
                Ok(None) => {
                    &&& Store::models_records() && self.spec_store().well_formed() ==> !self.spec_store().records().contains_key(
                        self.spec_id(),
                    )
                    &&& out.update == Some(SessionUpdate::Delete)
                },
                Err(_) => out.update is None,
            },
    {
        let mut this = self;
        update(&mut this.data);
        match this.store.save(&this.id, &this.data) {
            Ok(true) => {
                let id = this.id;
                Outcome { result: Ok(Some(this)), update: Some(SessionUpdate::SetCookie(id, exp)) }
            },
            Ok(false) => Outcome { result: Ok(None), update: Some(SessionUpdate::Delete) },
            Err(error) => Outcome { result: Err(error), update: None },
        }
    }

    /// Deletes the session from the store; the cookie is removed.
    ///
    /// Returns whether the store deleted it: `false` when the session did not exist, which
    /// happens when another request deleted it or it expired since it was loaded.
    ///
    /// # Error
    ///
    /// Errors if the underlying store errors.
    pub fn delete(self) -> (out: Outcome<Result<bool, Store::Error>>)
        ensures
            // A store without hard errors never makes this fail.
            Store::never_fails() ==> out.result is Ok,
            match out.result {
                Ok(existed) => {
                    &&& Store::models_records() && existed ==> self.spec_store().records().contains_key(self.spec_id())
                    &&& Store::models_records() && self.spec_store().well_formed() ==> existed
                        == self.spec_store().records().contains_key(self.spec_id())
                    &&& out.update == Some(SessionUpdate::Delete)
                },
                Err(_) => out.update is None,
            },
    {
        let mut this = self;
        match this.store.delete(&this.id) {
            Ok(deleted) => Outcome { result: Ok(deleted), update: Some(SessionUpdate::Delete) },
            Err(error) => Outcome { result: Err(error), update: None },
        }
    }

    /// Cycles the session id, with the expiry that the data's [`Expires`] impl gives; see
    /// [`SessionState::cycle_with_expiry`].
    ///
    /// # Error
    ///
    /// Errors if the underlying store errors.
    pub fn cycle(self) -> (out: Outcome<Result<Option<SessionState<R, Store>>, Store::Error>>) where
        R: Expires,

        ensures
            // A store without hard errors never makes this fail.
            Store::never_fails() ==> out.result is Ok,
            match out.result {
                Ok(Some(state)) => {
                    &&& state.spec_data() == self.spec_data()
                    &&& Store::models_records() ==> moves_ids(
                        self.spec_store().records(),
                        state.spec_store().records(),
                        self.spec_id(),
                        state.spec_id(),
                    ) && (self.spec_store().well_formed() ==> state.spec_store().well_formed() && moves_record(
                        self.spec_store().records(),
                        state.spec_store().records(),
                        self.spec_id(),
                        state.spec_id(),
                    ))
                    &&& out.update matches Some(SessionUpdate::SetCookie(id, exp)) && id == state.spec_id()
                        && call_ensures(R::expires, (&self.spec_data(),), exp)
                },
                // `Ok(None)` comes only for a session that the store no longer holds, and its
                // cookie is removed.
                Ok(None) => {
                    &&& Store::models_records() && self.spec_store().well_formed() ==> !self.spec_store().records().contains_key(
                        self.spec_id(),
                    )
                    &&& out.update == Some(SessionUpdate::Delete)
                },
                Err(_) => out.update is None,
            },
    {
        let exp = self.data.expires();
        self.cycle_with_expiry(exp)
    }

    /// Cycles the session id: moves the session to a new id in the store; the cookie is set to
    /// the new id and `exp`. This mitigates session fixation attacks.
    ///
    /// Returns `Ok(None)` when the session was deleted or expired between the time it was
    /// loaded and this call; then the cookie is removed.
    ///
    /// # Error
    ///
    /// Errors if the underlying store errors.
    pub fn cycle_with_expiry(self, exp: Expiry) -> (out: Outcome<
        Result<Option<SessionState<R, Store>>, Store::Error>,
    >)
        ensures
            // A store without hard errors never makes this fail.
            Store::never_fails() ==> out.result is Ok,
            match out.result {
                Ok(Some(state)) => {
                    &&& state.spec_data() == self.spec_data()
                    &&& Store::models_records() ==> moves_ids(
                        self.spec_store().records(),
                        state.spec_store().records(),
                        self.spec_id(),
                        state.spec_id(),
                    ) && (self.spec_store().well_formed() ==> state.spec_store().well_formed() && moves_record(
                        self.spec_store().records(),
                        state.spec_store().records(),
                        self.spec_id(),
                        state.spec_id(),
                    ))
                    &&& out.update == Some(SessionUpdate::SetCookie(state.spec_id(), exp))
                },
                // `Ok(None)` comes only for a session that the store no longer holds, and its
                // cookie is removed.
                Ok(None) => {
                    &&& Store::models_records() && self.spec_store().well_formed() ==> !self.spec_store().records().contains_key(
                        self.spec_id(),
                    )
                    &&& out.update == Some(SessionUpdate::Delete)
                },
                Err(_) => out.update is None,
            },
    {
        let mut this = self;
        match this.store.cycle_id(&this.id) {
            Ok(Some(new_id)) => {
                this.id = new_id;
                Outcome { result: Ok(Some(this)), update: Some(SessionUpdate::SetCookie(new_id, exp)) }
            },
            Ok(None) => Outcome { result: Ok(None), update: Some(SessionUpdate::Delete) },
            Err(error) => Outcome { result: Err(error), update: None },
        }
    }
}

/// The rejection of a handler that asks for a [`Session`] when the session middleware is not
/// set.
#[derive(Debug, Clone, Copy, PartialEq, Eq, PartialOrd, Ord, Hash)]
pub struct NoMiddleware;

impl NoMiddleware {
    /// The message of the rejection.
    pub fn message(&self) -> (text: &'static str)
        ensures
            text@ == "Missing session middleware. Is it added to the app?"@,
    {
        "Missing session middleware. Is it added to the app?"
    }

    /// The HTTP status of the rejection's response: 500, Internal Server Error.
    pub fn status_code(&self) -> (code: u16)
        ensures
            code == 500,
    {
        500
    }
}

} // verus!

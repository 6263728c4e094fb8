//! Verified core of an opinionated session middleware: session ids and their text form,
//! session expiry, the session-store contract with an in-memory store and a caching store,
//! the session handle given to request handlers, the cookie decisions of the middleware, and
//! the configuration of the SQL and DynamoDB stores.

pub mod dynamodb;
pub mod expires;
pub mod id;
pub mod laws;
pub mod memory_store;
pub mod middleware;
pub mod session;
pub mod session_store;
pub mod table_names;

pub use crate::dynamodb::{DynamoDBStoreKey, DynamoDBStoreProps};
pub use crate::expires::{DateTime, Duration, Expires, Expiry};
pub use crate::id::{Id, IdParseError};
pub use crate::memory_store::MemoryStore;
pub use crate::middleware::{Config, PlaintextCookie, SameSite, SessionCookie};
pub use crate::session::{NoMiddleware, Outcome, Session, SessionState, SessionUpdate};
pub use crate::session_store::{CachingSessionStore, CachingStoreError, SessionStore};
pub use crate::table_names::{is_valid_identifier, is_valid_table_name};

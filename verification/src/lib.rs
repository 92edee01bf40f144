//! Profile store and relationship-consistency engine for a matching
//! application: a keyed in-memory store of user profiles with CRUD and
//! pagination, per-profile left/right swipe sets, a mutual-right-swipe
//! match query, and a cascading cleanup protocol that tears down every
//! trace of a profile's swipe relationships.

pub mod errors;
pub mod idgen;
pub mod matcher;
pub mod profile;
pub mod store;
pub mod text;

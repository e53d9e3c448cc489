//! An in-memory todo store: a collection of todo records with stable
//! identity, unique titles at creation, and timestamp bookkeeping, exposed
//! through five operations (list, create, get, update, delete).

mod clock;
mod ids;
pub mod model;
pub mod response;
pub mod store;

//! A small create/read/update/delete service over one entity, the post.
//!
//! The storage port ([`store::DataStoreService`]) describes a table of posts
//! keyed by identifier; the service adapter ([`server::PostsServiceImp`]) turns
//! wire requests into calls on the port and the port's answers into wire
//! responses or status values.

pub mod ident;
pub mod models;
pub mod posts;
pub mod status;
pub mod store;
pub mod server;
pub mod memory;
pub mod laws;

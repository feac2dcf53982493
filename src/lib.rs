//! A small lookup service: requests are routed by method and path, the
//! `url` query parameter of `/category` names a key of a key-value store,
//! and each handler turns what it learned into a status and a body.
//!
//! The store round trip, the listening socket and the shutdown signal are
//! driven from outside the library; everything that decides what a request
//! gets back is here, with its contract.

pub mod form;
pub mod reply;
pub mod router;
pub mod service;

pub use form::{first_param, lookup_key};
pub use reply::{category_reply, get_segments, handle, Reply, Step, StoreError};
pub use router::{dispatch, route, Handler, Route};

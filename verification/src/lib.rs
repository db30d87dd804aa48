//! A uniqueness-preserving user account store for a wide-column datastore.
//!
//! The datastore offers compare-and-set only on a single partition, so the
//! store keeps two lookup tables next to the canonical `users` table and
//! coordinates them with conditional batch inserts. This crate holds the
//! decisions of that protocol: every operation is a small state machine that
//! hands out a [`gateway::Request`] and resumes on the datastore's
//! [`gateway::Response`]. The caller performs the round trips.
//!
//! - [`clock`] and [`ident`]: instants at millisecond precision, and account
//!   identifiers.
//! - [`models`] and [`errors`]: accounts, and what can go wrong.
//! - [`gateway`]: the round trips.
//! - [`repository`]: the statements against the three tables.
//! - [`service`]: the operations.
//! - [`model`] and [`laws`]: a model of the datastore, and what the
//!   operations are proved to achieve on it.

pub mod clock;
pub mod errors;
pub mod gateway;
pub mod ident;
pub mod laws;
pub mod model;
pub mod models;
pub mod repository;
pub mod service;
pub mod text;

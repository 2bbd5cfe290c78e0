//! The data-access core of a threaded discussion forum: categories hold
//! forums, forums hold threads, threads hold posts.
//!
//! The store behind the forum is a document database without foreign keys
//! and without automatic ids, so the rules live here: identifiers come from
//! counters and are never reused, a thread is created only in a forum that
//! exists and a post only in a thread that exists, every listing has a fixed
//! filter and order, and every failure falls into one closed set.
//!
//! * [`entity`], [`error`]: the stored documents and the failures.
//! * [`repository`], [`protocol`]: what a lookup means, and the plain values
//!   that describe a call on a store and its reply.
//! * [`resolve`], [`workflow`], [`activity`]: what a reply means to the
//!   caller, and the operations that need several calls, as state machines
//!   that a caller drives against the store it has.
//! * [`store`], [`api`]: a store held in memory, and the operations driven
//!   against it.
//! * [`laws`]: what holds of the operations on every store.
//! * [`forum`], [`route`], [`text`], [`clock`]: what the pages compute.

pub mod activity;
pub mod api;
pub mod clock;
pub mod entity;
pub mod error;
pub mod forum;
pub mod laws;
pub mod protocol;
pub mod repository;
pub mod resolve;
pub mod route;
pub mod store;
pub mod text;
pub mod workflow;

pub use crate::route::MatchPath;

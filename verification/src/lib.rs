//! Composition of a parachain runtime from named groups of pallets.
//!
//! A runtime is described by a module body: a list of items. The runtime
//! composer turns abstraction markers and explicit pallet aliases into the
//! indexed pallet declarations of the runtime; the API composer turns marker
//! modules into the blocks of trait implementations that the runtime exposes.
//!
//! - [`items`]: the items of a module body.
//! - [`models`]: the kinds of abstraction and how a marker's name selects one.
//! - [`extract`]: looking up the identifier that a type alias binds.
//! - [`fields`]: the keys that each abstraction requires, and their records.
//! - [`tables`]: the pallets of each abstraction, in index order.
//! - [`construct_runtime`]: the runtime composer.
//! - [`apis`]: the API blocks and the functions that instantiate them.
//! - [`runtime_apis`]: the API composer.
//! - [`errors`]: the ways in which an expansion fails.
//! - [`weights`], [`config`], [`exclude`]: what a runtime configures per
//!   pallet grouping.

pub mod apis;
pub mod config;
pub mod construct_runtime;
pub mod errors;
pub mod exclude;
pub mod extract;
pub mod fields;
pub mod items;
pub mod literal;
pub mod models;
pub mod runtime_apis;
pub mod tables;
pub mod text;
pub mod weights;

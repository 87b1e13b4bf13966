//! A catalog of ship records behind an HTTP API, as far as it can be decided
//! without touching the store.
//!
//! The core is the builder of the partial update: from a sparse patch and a
//! lookup key it makes one parameterized `UPDATE` statement and the ordered
//! list of its values. Column names come from a fixed list, values are bound
//! to placeholders, and text and values are built in one pass.
//!
//! - [`patch`]: the sparse patch and the values it binds.
//! - [`builder`]: the `UPDATE` statement of a patch, and what holds of it.
//! - [`insert`]: the `INSERT` statement of a new ship.
//! - [`flow`]: the steps of a patch request, with the guard that the ship
//!   exists.
//! - [`driver`]: the values of a statement, bound for the PostgreSQL driver.
//! - [`effect`]: what a statement does to a stored row.
//! - [`ship`]: the shape of a ship record and the check of its name.
//! - [`schema`]: adding a column at run time, for plain identifiers only.
//! - [`errors`], [`reply`]: the failures and what each request is answered
//!   with.
//! - [`text`], [`decimal`], [`placeholders`]: the texts that statements are
//!   made of.

pub mod decimal;
pub mod text;
pub mod placeholders;
pub mod errors;
pub mod ship;
pub mod schema;
pub mod patch;
pub mod builder;
pub mod insert;
pub mod flow;
pub mod driver;
pub mod effect;
pub mod reply;

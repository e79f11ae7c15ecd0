//! Loading and keeping daily weather observations in a SQLite table.
//!
//! The crate turns CSV text into rows, rebuilds and fills the `WeatherDB`
//! table, and creates, reads, updates and deletes observations by date.
//! Every statement goes to the engine with bound parameters.
//!
//! Real numbers never appear in this crate: a REAL travels as the engine's
//! own value, which callers build and open.

pub mod value;
pub mod error;
pub mod schema;
pub mod record;
pub mod engine;
pub mod loader;
pub mod store;
pub mod driver;

pub use crate::error::{DbError, LoadError};
pub use crate::loader::{
    insert_rows, load_rows, read_rows, reset_table, transform_load, LoadReport,
};
pub use crate::record::{Observation, TextRow};
pub use crate::store::{create_entry, delete_entry, read_entry, update_entry};
pub use crate::value::SqlValue;

//! Natural-language data requests answered from a relational database:
//! prompt compilation, extraction of the generated query, and the
//! normalisation of result rows into a portable table.

pub mod error;
pub mod text;
pub mod lines;
pub mod binding;
pub mod prompt;
pub mod completion;
pub mod table;
pub mod orbiter;
pub mod auth;
pub mod login;

pub use crate::error::OrbiterError;
pub use crate::orbiter::DatabaseOrbiter;
pub use crate::table::Table;

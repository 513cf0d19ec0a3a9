pub mod encryption;
pub mod queries;
pub mod schema;

pub use schema::{CREATE_TABLES, SCHEMA_VERSION};

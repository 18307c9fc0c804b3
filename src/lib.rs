//! A URL-shortening service's core: alias generation, the alias-to-URL store
//! with its uniqueness rule, and the request handling decisions built on them.
pub mod config;
pub mod error;
pub mod gen_alias;
pub mod server;
pub mod storage;
pub mod telemetry;
pub mod url_check;

pub use error::AppError;

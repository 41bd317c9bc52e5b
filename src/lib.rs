//! A client for container-registry endpoints (catalog, tag and manifest
//! queries), written as verified steps: building the request, reading the
//! response, and shaping the result or the error.
pub mod foreign;
pub mod laws;
pub mod query;
pub mod text;

pub use query::{ErrorKind, ImplQueryImageInterface, QueryError, ResponseData, ResponseStep};

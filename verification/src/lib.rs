//! Read-context foundation of the organization ORM core: the pool policy, the
//! startup options that pin schema and transaction policy, and the checks that
//! every connection must pass before a context is handed out.

pub mod connection;
pub mod diesel_connection;
pub mod error;
pub mod laws;
pub mod policy;
pub mod read;
pub mod schema;

pub use connection::{startup_options, Role};
pub use error::OrmError;
pub use policy::ConnectPolicy;
pub use schema::ORG_SCHEMA;

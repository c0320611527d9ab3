//! The data model of the remote incident-management service.

pub mod schema;

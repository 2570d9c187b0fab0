//! Data-transfer objects of a data-warehouse query service, each with a
//! verified codec to and from a key-value wire tree.
pub mod wire;
pub mod reference;
pub mod query_request;
pub mod policy;
pub mod metrics;

//! Authentication and configuration resolution for a cloud deploy command line tool.
//!
//! The library holds the data model of stored credentials and deploy profiles, the
//! resolution of deploy profiles into network-ready configurations, the device
//! authorization state machine, and the classification of deploy service responses.
pub mod model;
pub mod resolve;
pub mod client;
pub mod json;
pub mod oauth;
pub mod store;
pub mod logger;
pub mod archive;

//! A client library for a remote entry-management API: layered connection
//! settings, tenant-scoped request shaping, and the classification of HTTP
//! outcomes into one typed error taxonomy.

pub mod text;
pub mod error;
pub mod config;
pub mod settings;
pub mod models;
pub mod client;
pub mod response;
pub mod cli;
pub mod render;

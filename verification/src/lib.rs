//! Verified core of the Pistachio admin API clients: error details, error
//! classification, and the conversions between wire models and domain values.

pub mod api_key;
pub mod app;
pub mod client;
pub mod auth_provider;
pub mod convert;
pub mod grpc_error;
pub mod http_error;
pub mod json;
pub mod laws;
pub mod lists;
pub mod string_map;
pub mod operations;
pub mod pagination;
pub mod service_account;
pub mod problem;
pub mod project;
pub mod status;
pub mod text;
pub mod timestamp;
pub mod token;
pub mod usage;
pub mod user;

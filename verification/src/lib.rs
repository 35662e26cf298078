//! Core of a diagnostic aggregator: a closed set of data sources, the text each
//! one contributes once its service has answered, and the ordered assembly of
//! those contributions into one prompt.

pub mod args;
pub mod config;
pub mod context;
pub mod datasource;
pub mod error;
pub mod openai;
pub mod prompt;
pub mod table;
pub mod text;
pub mod timezone;

//! The data sources: one module for each kind, and the type that unites them.

pub mod app_description;
pub mod cloudwatch_log_insight;
pub mod ec2;
pub mod rds;
pub mod cloudwatch_metric;
pub mod ds;
pub mod sorting;

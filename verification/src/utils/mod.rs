//! Helpers shared by the models and the connections.

pub mod decimal;
pub mod snowflake_generator;

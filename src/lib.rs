pub mod commands;
pub mod json;
pub mod records;
pub mod schema;

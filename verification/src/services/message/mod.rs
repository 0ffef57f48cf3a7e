pub mod handlers;
pub mod model;

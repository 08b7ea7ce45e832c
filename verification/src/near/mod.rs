pub mod client;
pub mod model;

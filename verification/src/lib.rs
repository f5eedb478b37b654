pub mod api;
pub mod client;
pub mod json;
pub mod records;
pub mod user;

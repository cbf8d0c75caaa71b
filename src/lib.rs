pub mod endpoints;
pub mod env;
pub mod payload;
pub mod poll;
pub mod scenario;

pub mod errors;
pub mod id;
pub mod query;
pub mod response;

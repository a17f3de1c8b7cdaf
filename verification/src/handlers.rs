pub mod block;
pub mod config;
pub mod debug;
pub mod header;
pub mod state;
pub mod validator;
pub mod version;

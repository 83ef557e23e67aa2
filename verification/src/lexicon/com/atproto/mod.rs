pub mod identity;
pub mod repo;
pub mod server;

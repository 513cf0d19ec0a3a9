pub mod tools;
pub mod server;

pub mod completion;
pub mod config;
pub mod history;
pub mod message;
pub mod session;
pub mod text;

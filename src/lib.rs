//! A terminal task dashboard: the TODO list model, its persistence in a
//! local SQLite store, the key-driven application state machine and the
//! system metrics collector, each stated as contracts and proved.

pub mod app;
pub mod database;
pub mod keys_handler;
pub mod system_info;
pub mod types;
pub mod welcome;

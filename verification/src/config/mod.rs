//! Settings of the server and of the reporting client.

pub mod settings;
pub mod settings_handler;

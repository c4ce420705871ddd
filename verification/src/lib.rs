//! Response engine of a chat bot: a message is matched against a registry of
//! triggers, the matched command's template is rendered, and the change the
//! command asks for is validated before it is applied.

pub mod admin;
pub mod bot;
pub mod command;
pub mod database;
pub mod delivery;
pub mod edit;
pub mod event;
pub mod lexer;
pub mod models;
pub mod number;
pub mod script_engine;
pub mod script_runner;
pub mod special_command;
pub mod store;
pub mod text;

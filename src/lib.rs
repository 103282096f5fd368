//! Configuration commands of the Scilla command-line tool: show, generate,
//! edit and go back, as a verified session that decides every step and
//! leaves prompts, files, the environment and subprocesses to its driver.

pub mod command;
pub mod document;
pub mod error;
pub mod laws;
pub mod session;
pub mod settings;

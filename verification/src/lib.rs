//! An interactive wizard that collects subtitle-generation options step by
//! step, derives the command line of the generator from the answers, and
//! supervises a run of that command whose output is shown as a live log.
//!
//! Everything here is plain data and functions on it; the terminal, the file
//! system and the child process belong to the program built around it.

pub mod catalog;
pub mod command;
pub mod keys;
pub mod layout;
pub mod log;
pub mod probe;
pub mod session;
pub mod text;
pub mod view;
pub mod wizard;

//! An interactive command-line shell, as a library: the line parser, the
//! command model and the dispatcher that decides what a command does.
//!
//! Everything here is pure. Whatever touches the operating system (running a
//! program, changing directory, probing the file system, ending the process)
//! is handed to the host as a request, and the host reports back.

pub mod builtins;
pub mod command;
pub mod environment;
pub mod error;
pub mod lexer;
pub mod parser;
pub mod redirect;
pub mod text;

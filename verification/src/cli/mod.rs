//! The command-line surface, as far as it decides anything: routing a
//! chat line, what each command reports and exits with, and what is
//! printed. Parsing arguments and doing the I/O is the caller's part.

pub mod output;
pub mod args;
pub mod chat;
pub mod commands;

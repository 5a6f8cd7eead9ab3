//! A verified core for an interactive command interpreter.
//!
//! The library covers the logic of a small shell: tokenizing an input line
//! into a command name and arguments under quoting and escaping rules,
//! classifying builtin command names, tracking the working directory through
//! `cd` navigation, and resolving external command names against a search
//! path. Reading input, writing output, and spawning processes are left to
//! the surrounding program, which drives the library one command at a time.

pub mod builtin;
pub mod paths;
pub mod shell;
pub mod strutil;
pub mod tokenizer;

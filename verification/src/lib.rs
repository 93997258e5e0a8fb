//! A minimal line-oriented command interpreter, modelled as a verified state
//! machine.
//!
//! The library holds everything the interpreter decides: tokenizing an input
//! line, dispatching on the command name, each builtin's argument checks, the
//! exact text of every message, and the order of the filesystem operations a
//! builtin performs.  Filesystem work itself is expressed as [`shell::Action`]
//! values; a thin host loop performs each action and feeds the outcome back as
//! a [`shell::Event`].  Every transition of the machine is pinned by the spec
//! functions in [`shell`], so the host loop contains no logic of its own.

pub mod text;
pub mod paths;
pub mod shell;
pub mod laws;

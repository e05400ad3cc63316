//! The command-shell engine behind the Blaze terminal: tokenizing a typed
//! line, routing it to a built-in or an allowlisted external program, and
//! keeping the bounded transcript that the user interface displays.

pub mod state;
pub mod text;
pub mod sorting;
pub mod buffer;
pub mod tokenizer;
pub mod allowlist;
pub mod paths;
pub mod builtins;
pub mod translator;
pub mod router;
pub mod session;
pub mod executor;
pub mod filesystem;
pub mod history;
pub mod completion;
pub mod web;

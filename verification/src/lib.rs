//! Typed access to Neovim's Lua API (`vim.*`).
//!
//! The library describes what is asked of the Neovim Lua runtime: which
//! place of the `vim` table is read or written, which function is called
//! and with which arguments, and how the library's values look as Lua
//! values. Running these requests against a live runtime is left to the
//! caller.
pub mod api;
pub mod common;
pub mod fns;
pub mod lsp;
pub mod lua;
pub mod macros;
pub mod syntax;
pub mod text;
pub mod vim;

pub use api::Api;
pub use fns::Fns;
pub use vim::{Env, IndexedVariables, LogLevel, Opt, Ui, Variables, Vim};

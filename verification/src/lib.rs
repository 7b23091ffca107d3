//! Verified core of the Python language-server adapter: where the Pyright
//! server lives, how it is launched, how its completion items and symbols are
//! turned into labels, and which tasks are offered for Python files.

pub mod completions;
pub mod label;
pub mod server;
pub mod symbols;
pub mod tasks;

//! Inspection and patching of a running process's memory: typed results for
//! the operating system's memory primitives, pattern scanning over committed
//! regions, export-table symbol resolution and reversible inline hooks.
//!
//! The library makes no system call itself. Whoever owns the process handle
//! performs each primitive and hands the outcome to the functions here, which
//! decide what it means.

pub mod error;
pub mod access;
pub mod scan;
pub mod names;
pub mod symbols;
pub mod reader;
pub mod modules;
pub mod hook;
pub mod enums;
pub mod install;
pub mod wad;

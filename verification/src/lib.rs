//! The decisions behind running a Rust source file as a script.
//!
//! A script becomes a Cargo package in a cache directory.  This crate holds everything about
//! that which can be decided without touching the system: which package a script maps to, when
//! the package has to be generated and compiled again, what is written into it, which commands
//! are run, and what is thrown out of the cache.  Paths are held as text.

pub mod action;
pub mod args;
pub mod build_kind;
pub mod cache;
pub mod cargo;
pub mod consts;
pub mod deps;
pub mod digest;
pub mod error;
pub mod generate;
pub mod input;
pub mod laws;
pub mod metadata;
pub mod paths;
mod readback;
pub mod session;
pub mod text;

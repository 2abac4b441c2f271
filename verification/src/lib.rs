//! Keeps a packaged key database in step with its newest archived snapshot:
//! the rules that decide what to request from the archive, whether a snapshot
//! is news, what the package files say, and how the package repository may move.

pub mod text;
pub mod error;
pub mod archive;
pub mod aur;
pub mod config;
pub mod git;
pub mod version;
pub mod app;

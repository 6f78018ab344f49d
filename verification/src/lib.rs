//! Verified core of a command-line client for Bitbucket Cloud and
//! Bitbucket Server/Data Center: configuration, repository context
//! resolution, URL construction and the argument handling of each command.

pub mod text;
pub mod strmap;
pub mod config;
pub mod cli;
pub mod context;
pub mod error;
pub mod extension;

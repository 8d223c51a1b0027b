//! The model of the command line tool: recipes written in TOML, build images kept on disk,
//! and the jobs that build packages in containers.

pub mod os;
pub mod deps;
pub mod cmd;
pub mod image;
pub mod job;
pub mod fmt;
pub mod control;
pub mod plan;
pub mod gen;
pub mod config;
pub mod metadata;
pub mod jobs;
pub mod state;

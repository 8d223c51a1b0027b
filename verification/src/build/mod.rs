//! The decisions a package build takes: which steps of a recipe run where, and the names,
//! paths and commands with which each packaging format is built inside a container.

pub mod commands;
pub mod context;
pub mod image;
pub mod layout;
pub mod output;
pub mod steps;

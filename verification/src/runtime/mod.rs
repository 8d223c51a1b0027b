//! What the library knows of container runtimes: the options of a container and of a command
//! run in it, and the output such a command leaves.

pub mod container;

pub use container::{fix_name, Chunk, CreateOpts, ExecOpts, InvalidUtf8, Output};

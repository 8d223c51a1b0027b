//! Building blocks of a tool that builds RPM, DEB and other packages from recipes inside
//! containers: recipe data, the templates in recipe steps, and the decisions a build takes.

pub mod strmap;
pub mod template;
pub mod text;
pub mod value;
pub mod cli;
pub mod recipe;
pub mod build;
pub mod runtime;

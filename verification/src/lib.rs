//! Scaffolds a new project directory from a template tree.
//!
//! The library holds the decisions: how a project is named, where it is put,
//! which entries of the template are reproduced, and what is done for each.
//! The caller performs the file-system operations that the library asks for
//! and reports their outcomes back.

pub mod allocate;
pub mod cli;
pub mod deploy;
pub mod errors;
pub mod generate;
pub mod git;
pub mod guarantees;
pub mod materialize;
pub mod name;
pub mod path;
pub mod scan;
pub mod text;
pub mod walk;

pub use crate::deploy::DeployParameters;
pub use crate::errors::TemployError;
pub use crate::generate::GenerateParameters;

//! Module trees of Rust packages.
//!
//! A package is described by the file that holds its root module. Every
//! `mod` declaration found among a module's items adds a child to the
//! tree: a declaration with a body is explored in place, one without a
//! body is looked up on disk by the usual naming convention.
//!
//! The library never touches the file system itself. A build is a sequence
//! of [`Progress`] values: whenever the text of a file, or the existence of
//! a file, is needed, the build stops and names the path; the caller
//! answers and the build goes on.
//!
//! - [`paths`] holds the naming convention that leads from a declaration
//!   to a file.
//! - [`syntax`] holds what is read of parsed source text.
//! - [`package`] holds the tree, and says when a tree is well formed.
//! - [`machine`] describes a build as a machine that steps from state to
//!   state, and [`builder`] runs it.
//! - [`consistency`] shows what every state of a build has in common.
//! - [`laws`] states what follows for every tree that a build hands out.

pub mod builder;
pub mod consistency;
pub mod laws;
pub mod machine;
pub mod package;
pub mod paths;
pub mod syntax;

pub use builder::{Loading, Probing, Progress};
pub use package::{Error, Module, ModuleId, Package};
pub use paths::{
    base_directory, file_root_path, index_file, module_directory, module_file, root_internal_path,
};
pub use syntax::{ModuleDecl, SourceFile};

//! Planning of self-contained application bundles: which shared libraries a
//! binary needs, which of them travel with it, and where each one is placed
//! inside the bundle directory.
//!
//! Nothing in this library touches the file system or runs a tool. It takes
//! what was read (the loader's report, the entries of a staging directory,
//! the configuration table of a manifest) and answers with plans: links to
//! create, files to copy, the next step of an assembly. Every answer is
//! specified over the text of the paths involved.
//!
//! - `lister` reads the report of the loader-inspection tool.
//! - `staging` plans the links of a staging directory.
//! - `exclude` holds the glob patterns that keep libraries out of a bundle.
//! - `materialize` plans the copies that mirror the staged libraries below
//!   the bundle root.
//! - `bundle` orders the steps that assemble one bundle.
//! - `layout`, `locate`, `build_args` and `config` say where things are and
//!   what was asked for; `path` and `text` are what they are built on.

pub mod build_args;
pub mod bundle;
pub mod config;
pub mod exclude;
pub mod layout;
pub mod lister;
pub mod locate;
pub mod materialize;
pub mod path;
pub mod staging;
pub mod text;

//! A dotfile manager: places a user's configuration files into their home
//! directory as symbolic links and renders templated configuration files.
//!
//! The filesystem is never touched here. The library decides: which links
//! to place and where, what to do with whatever already occupies a
//! destination, which entries a run selects and in what order, and what a
//! template renders to. A driver observes the filesystem, hands the
//! observations in, and performs the actions handed back.
use vstd::prelude::*;

pub mod cli;
pub mod error;
pub mod manifest;
pub mod paths;
pub mod reconcile;
pub mod run;
pub mod template;

verus! {

} // verus!

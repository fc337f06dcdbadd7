//! Resolution of editor-extension identifiers into marketplace artifacts:
//! which published version applies, which platform build to take, where the
//! artifact lives, and whether a local copy already answers the request.
//!
//! The library decides and does no I/O. `extensions::file::download` is the
//! pipeline for one identifier and `run::run` the one for a list of them:
//! each takes what happened last and says what is to be done next, and a
//! program around the library does it. What the pipelines decide is stated
//! in the contracts of the functions they are made of, and proved.

pub mod directory;
pub mod error;
pub mod extensions;
pub mod json;
pub mod run;
pub mod text;
pub mod views;

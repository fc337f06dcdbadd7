//! The resolution-and-fetch pipeline, one module per component.

pub mod extension;
pub mod file;
pub mod info;
pub mod parse;
pub mod platform;
pub mod url;
pub mod version;
pub mod version_map;

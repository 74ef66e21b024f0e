//! Resolution of package formulas and planning of binary installs.

pub mod address;
pub mod archive;
pub mod command_install;
pub mod digest;
pub mod document;
pub mod error;
pub mod extension;
pub mod formula;
pub mod host;
pub mod resolver;
pub mod schema;
pub mod store;
pub mod template;
pub mod text;
pub mod util;

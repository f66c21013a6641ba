//! Launch-profile generation for editor debuggers.
//!
//! A [`profile::Profile`] describes one program to debug. Each editor backend
//! renders it into its own JSON schema and merges it into the text of that
//! editor's configuration file. The library never touches the file system: it
//! maps the text that was read to the text that is to be written.
pub mod add;
pub mod collection;
pub mod entry;
pub mod error;
pub mod json;
pub mod language;
pub mod profile;
pub mod vscode;
pub mod zed;

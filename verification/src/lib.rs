//! Speech coordination core of a clipboard reader.
//!
//! The crate holds the decisions of a text-to-speech front end: how stored
//! settings are brought into range, how a voice is found in the catalog of
//! installed voices, which calls the speech platform receives for each
//! operation and in what order, and what a clipboard notification leads to.
//! It performs no input or output itself. The host owns the platform objects,
//! carries out each [`coordinator::Request`] and reports the platform's answer.

pub mod args;
pub mod clipboard;
pub mod coordinator;
pub mod settings;
pub mod voice;

//! Configuration resolution and output handling for a plugin that drives the
//! rustfmt engine from a generic formatting host.

pub mod laws;
pub mod options;
pub mod output;
pub mod plugin_info;
pub mod resolve;

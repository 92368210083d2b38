//! Tells the Zed editor how to start the Typedown language server.

pub mod descriptor;
pub mod extension;

//! Verified core of the Python bindings for lightningcss.
pub mod color;
pub mod error;
pub mod flags;
pub mod options;
pub mod stylesheet;
pub mod targets;
pub mod text;
pub mod values;
pub mod visit;

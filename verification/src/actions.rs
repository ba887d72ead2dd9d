//! What the build tool does with the store of build artifacts.

pub mod artifacts;

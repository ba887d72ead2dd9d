//! The rules of a build tool for archives and build artifacts.
//!
//! The library decides and leaves the doing to its caller. It reads the
//! format of an archive off its name, chooses the program or codec that
//! packs or unpacks it, and builds the command lines of those programs. For
//! the store of build artifacts it decides which entries of a directory walk
//! become files of an artifact, when an upload may be finalized, and which
//! file a download fetches.
//!
//! Paths are `/`-separated strings, and nothing here touches the file
//! system, starts a program or talks to the store. The functions are
//! verified against contracts over the characters and bytes of their
//! arguments. The one exception is the call of the gzip decoder, whose
//! contract is trusted.
//!
//! - [`path`] reads names, extensions, parents and components off paths.
//! - [`archive`] holds the formats and the choice of a backend per operation.
//! - [`program`] and [`programs`] hold command lines, `tar` and 7-Zip.
//! - [`actions`] holds the transfer of files to and from the artifact store.

pub mod actions;
pub mod archive;
pub mod path;
pub mod program;
pub mod programs;
pub mod text;

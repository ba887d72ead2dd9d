//! The external programs that pack and unpack archives.

pub mod seven_zip;
pub mod tar;

//! Data model for filesystem entries as seen by a remote-filesystem client:
//! the `Entry` sum type (directories and files with optional POSIX metadata),
//! the `UnixPex` permission-triple codec, and symlink-chain resolution.

pub mod fs;

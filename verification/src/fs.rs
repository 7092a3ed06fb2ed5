//! Filesystem entities: entries, their metadata, and POSIX permissions.

pub mod file;

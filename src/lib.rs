//! Hashing a file's contents under several line-ending conventions.
//!
//! The library decides which rewrites of a file apply (`file`) and performs
//! the byte-level newline rewrite (`trans`). Reading files, hashing and
//! printing are left to the caller.
pub mod file;
pub mod trans;

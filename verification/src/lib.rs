//! A permission-guarded store for encrypted blobs.
//!
//! The store keeps three kinds of artifact below one data directory: a
//! configuration blob, a history blob, and named files, each of which is a
//! ciphertext payload with a metadata sidecar that are made read-only once
//! written. The payloads are opaque strings; nothing here encrypts or
//! decrypts.
//!
//! The library never touches the disk itself. Every operation is a
//! [`session::Session`]: a small state machine that names the next file-system
//! action and, told how that action went, names the one after it, until it
//! ends with the operation's outcome. The caller performs the actions.
//!
//! - [`commands`] starts a session for each operation of the store.
//! - [`session`] holds the scripts of the operations and the step from one
//!   action to the next.
//! - [`protocol`] is the vocabulary: requests, actions, events, replies.
//! - [`paths`] says where each artifact lives and which directory entries
//!   name stored files.
//! - [`platform`] asks the platform for the data directory and for the
//!   directory that holds a path, and says what each answer means.
//! - [`error`] is the error type.
//! - [`disk`], [`effects`] and [`laws`] say and prove what the operations
//!   achieve on a disk that carries every action out faithfully.

pub mod error;
pub mod paths;
pub mod protocol;
pub mod session;
pub mod platform;
pub mod commands;
pub mod disk;
pub mod effects;
pub mod laws;

//! Core logic for a game-version swapping tool: resolving the file set of a
//! version payload, checking payloads against a required-file manifest, and
//! verifying checksummed copies into the live game directory.
//!
//! The library is pure: it works on an explicit model of the directory
//! listings and file bytes its caller hands it, and decides; the caller does
//! the filesystem work. Assumes single-instance, single-operator use: nothing
//! guards two concurrent invocations racing on one game directory.
pub mod cli;
pub mod fsmodel;
pub mod integrity;
pub mod manifest;
pub mod repo;
pub mod swap;
pub mod text;

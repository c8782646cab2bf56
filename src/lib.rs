//! Per-user markdown document vault: a JSON user registry, the naming rules
//! of the document store, and the decisions of the remote encryption client.
//! File system and network access live with the caller; every function here
//! is a pure computation with a verified contract.

pub mod documents;
pub mod error;
pub mod json;
pub mod registry;
pub mod greeting;
pub mod remote;

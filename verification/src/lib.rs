//! Hookey: an execution layer over a rope text buffer.
//!
//! The crate is organised in layers:
//! - [`domain`]: typed indices and ranges in character space;
//! - [`lines`]: the model of a text's lines, with its laws;
//! - [`buffer`]: the text storage, a rope, with typed errors;
//! - [`decimal`]: decimal notation for error messages;
//! - [`cursor`]: a persistent cursor stored as an absolute character index;
//! - [`editor`]: buffer plus cursor, driven by primitive operations;
//! - [`actions`]: high-level intents that expand into operations.

pub mod domain;
pub mod lines;
pub mod buffer;
pub mod decimal;
pub mod cursor;
pub mod editor;
pub mod actions;

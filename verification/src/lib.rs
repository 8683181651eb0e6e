//! Extraction engine for a command/event bridge binding generator.
//!
//! The library models a backend module's declared syntax (types, procedures,
//! imports, expression trees) as plain data, and extracts from it the shape
//! descriptors, command descriptors and event descriptors that a rendering
//! collaborator turns into typed client bindings.


pub mod ast;
pub mod strutil;
pub mod typemap;
pub mod aliases;
pub mod model;
pub mod commands;
pub mod events;
pub mod casing;
pub mod config;
pub mod samples;
pub mod laws;

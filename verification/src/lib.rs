//! Development-mode runtime generation for an ECMAScript bundler's chunking
//! subsystem.
//!
//! A bundler partitions a module graph into chunks (units of loadable output)
//! and chunk groups (sets of chunks that must all be present before an entry
//! can execute). At runtime, each chunk registers its modules with a shared
//! bootstrap runtime and declares which sibling chunks must be loaded first.
//! This crate computes, for a given chunk, the self-excluded dependency list,
//! the module identifiers the chunk instantiates, and the bootstrap code that
//! wires the chunk into the shared runtime.

pub mod assemble;
pub mod dev_runtime;
pub mod model;
pub mod paths;
pub mod params;
pub mod runtime;
pub mod stringify;

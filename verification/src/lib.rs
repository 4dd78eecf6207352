//! Build context of the WebAssembly ahead-of-time compiler: the global
//! configuration of a build and the paths derived from its source file.

pub mod context;
pub mod path;

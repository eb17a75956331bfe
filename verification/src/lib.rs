//! Structural analysis and diffing of WebAssembly modules.

pub mod fingerprint;
pub mod ir;
pub mod opcode;
pub mod text;
pub mod cfg;
pub mod analysis;
pub mod render;
pub mod resolve;
pub mod normalize;
pub mod diff;
pub mod matcher;
pub mod parse;
pub mod laws;
pub mod report;

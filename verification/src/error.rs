//! The engine's error kinds.
//!
//! Resource construction either fully succeeds or reports one of these; no
//! partial resource state is ever handed to a caller. Every kind here is
//! fatal in the sense of the engine's contract: the embedding application
//! decides whether to abort or degrade when it sees one.

use vstd::prelude::*;

verus! {

/// Why an engine operation refused to proceed.
#[derive(Debug, PartialEq, Eq)]
pub enum EngineError {
    /// A shader stage failed to compile; carries the driver's compile log.
    ShaderCompileFailed { log: String },
    /// A program failed to link.
    ProgramLinkFailed,
    /// A vector uniform was given a component count outside 1 to 4.
    UniformVectorLength { len: usize },
    /// Every texture unit of the program's fixed pool is taken.
    TexturePoolExhausted,
    /// A texture's uniform was set before the texture was loaded.
    TextureNotLoaded,
}

} // verus!

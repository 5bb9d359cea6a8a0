use vstd::prelude::*;

verus! {

/// Certificate compression algorithm.
#[derive(Debug, Copy, Clone, PartialEq, Eq, Structural)]
pub enum CertCompressionAlgorithm {
    Brotli,
    Zlib,
    Zstd,
}

} // verus!

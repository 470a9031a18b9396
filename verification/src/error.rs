//! The failures that end a compression request.

use vstd::prelude::*;

verus! {

/// Why a request failed. Each failure is final: nothing is retried.
#[derive(Clone, Copy, Debug, PartialEq, Eq, Structural)]
pub enum CompressionError {
    /// The input path has no parent directory to put the output into.
    Resolution,
    /// The input file could not be read.
    Read,
    /// The input bytes are not an image of the format that the extension
    /// claims.
    Decode,
    /// The PDF rewriter could not be started.
    Launch,
    /// The PDF rewriter ran and reported failure.
    ExitStatus,
    /// The encoder rejected the image, or the output could not be written.
    Encode,
}

/// How a request ended: the path of the file that was written, or the reason
/// why none was.
pub type CompressionOutcome = Result<String, CompressionError>;

} // verus!

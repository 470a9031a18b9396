//! Which backend handles which extension.

use vstd::prelude::*;
use crate::text::same_text;

verus! {

/// The ways in which a file is compressed.
#[derive(Clone, Copy, Debug, PartialEq, Eq, Structural)]
pub enum Strategy {
    /// PDF: rewritten by an external program.
    Rewrite,
    /// JPEG: decoded and encoded again at a lower quality.
    ReencodeJpeg,
    /// PNG: decoded and encoded again with the encoder's own settings.
    ReencodePng,
    /// Any other extension: nothing is done.
    Unsupported,
}

/// The strategy for a lowercase extension. This table is the only place where
/// formats are told apart.
pub open spec fn strategy_for(extension: Seq<char>) -> Strategy {
    if extension == "pdf"@ {
        Strategy::Rewrite
    } else if extension == "jpg"@ || extension == "jpeg"@ || extension == "img"@ {
        Strategy::ReencodeJpeg
    } else if extension == "png"@ {
        Strategy::ReencodePng
    } else {
        Strategy::Unsupported
    }
}

/// Selects the strategy for a lowercase extension.
pub fn select_strategy(extension: &str) -> (strategy: Strategy)
    ensures
        strategy == strategy_for(extension@),
{
    if same_text(extension, "pdf") {
        Strategy::Rewrite
    } else if same_text(extension, "jpg") || same_text(extension, "jpeg") || same_text(
        extension,
        "img",
    ) {
        Strategy::ReencodeJpeg
    } else if same_text(extension, "png") {
        Strategy::ReencodePng
    } else {
        Strategy::Unsupported
    }
}

/// An extension with a strategy is one of five words, none of which is empty
/// or holds a dot.
pub proof fn lemma_supported_extension(extension: Seq<char>)
    requires
        strategy_for(extension) != Strategy::Unsupported,
    ensures
        extension.len() > 0,
        !extension.contains('.'),
{
    reveal_strlit("pdf");
    reveal_strlit("jpg");
    reveal_strlit("jpeg");
    reveal_strlit("img");
    reveal_strlit("png");
}

} // verus!

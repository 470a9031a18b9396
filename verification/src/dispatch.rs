//! The dispatcher: from a request to the work that it calls for.
//!
//! The extension alone picks the backend. The dispatcher hands back a job for
//! the caller to carry out, or nothing where the extension has no backend; it
//! touches no file itself.

use vstd::prelude::*;
use crate::codec::{Codec, ReencodeJob};
use crate::error::CompressionError;
use crate::pdf::RewriteJob;
use crate::quality::{encoder_quality_for, jpeg_encoder_quality, pdf_preset, preset_for};
use crate::resolve::{resolution, resolve, ResolvedOutput, ResolvedText};
use crate::strategy::{select_strategy, strategy_for, Strategy};

verus! {

/// What a request calls for.
#[derive(Clone, Debug, PartialEq, Eq)]
pub enum NextStep {
    /// The extension has no backend. The request ends well with nothing
    /// written.
    Nothing,
    /// Run the PDF rewriter.
    Rewrite(RewriteJob),
    /// Read the input and encode it again.
    Reencode(ReencodeJob),
}

/// Whether `step` is what the request calls for: the job of the backend that
/// the extension selects, from the input path to the resolved output path,
/// with the setting that the backend derives from the quality.
pub open spec fn is_first_step(
    step: NextStep,
    input_path: Seq<char>,
    resolved: ResolvedText,
    quality: Option<u8>,
) -> bool {
    match strategy_for(resolved.extension) {
        Strategy::Rewrite => {
            &&& step matches NextStep::Rewrite(job)
            &&& job.input_path@ == input_path
            &&& job.output_path@ == resolved.output_path
            &&& job.preset == preset_for(quality)
        },
        Strategy::ReencodeJpeg => {
            &&& step matches NextStep::Reencode(job)
            &&& job.input_path@ == input_path
            &&& job.output_path@ == resolved.output_path
            &&& job.extension@ == resolved.extension
            &&& job.codec matches Codec::Jpeg { quality: encoder_quality }
            &&& encoder_quality == encoder_quality_for(quality)
        },
        Strategy::ReencodePng => {
            &&& step matches NextStep::Reencode(job)
            &&& job.input_path@ == input_path
            &&& job.output_path@ == resolved.output_path
            &&& job.extension@ == resolved.extension
            &&& job.codec == Codec::Png
        },
        Strategy::Unsupported => step is Nothing,
    }
}

/// Selects the backend for a resolved request and prepares its job.
pub fn compress(input_path: &str, resolved: ResolvedOutput, quality: Option<u8>) -> (step:
    NextStep)
    ensures
        is_first_step(step, input_path@, resolved@, quality),
{
    match select_strategy(resolved.extension.as_str()) {
        Strategy::Rewrite => NextStep::Rewrite(
            RewriteJob {
                input_path: input_path.to_owned(),
                output_path: resolved.output_path,
                preset: pdf_preset(quality),
            },
        ),
        Strategy::ReencodeJpeg => NextStep::Reencode(
            ReencodeJob {
                input_path: input_path.to_owned(),
                output_path: resolved.output_path,
                extension: resolved.extension,
                codec: Codec::Jpeg { quality: jpeg_encoder_quality(quality) },
            },
        ),
        Strategy::ReencodePng => NextStep::Reencode(
            ReencodeJob {
                input_path: input_path.to_owned(),
                output_path: resolved.output_path,
                extension: resolved.extension,
                codec: Codec::Png,
            },
        ),
        Strategy::Unsupported => NextStep::Nothing,
    }
}

/// Resolves the output path of a request and prepares the work.
///
/// Fails, before any work is prepared, exactly when the input path has no
/// parent directory.
pub fn compress_file(input: &str, output_name: Option<&str>, quality: Option<u8>) -> (step:
    Result<NextStep, CompressionError>)
    ensures
        match resolution(input@, crate::resolve::chars_of(output_name)) {
            Some(resolved) => step is Ok && is_first_step(step->Ok_0, input@, resolved, quality),
            None => step == Err::<NextStep, CompressionError>(CompressionError::Resolution),
        },
{
    match resolve(input, output_name) {
        Ok(resolved) => Ok(compress(input, resolved, quality)),
        Err(error) => Err(error),
    }
}

/// A request for a PNG calls for the same work whatever the quality.
pub proof fn lemma_png_ignores_quality(
    step: NextStep,
    input_path: Seq<char>,
    resolved: ResolvedText,
    quality: Option<u8>,
    other: Option<u8>,
)
    requires
        strategy_for(resolved.extension) == Strategy::ReencodePng,
        is_first_step(step, input_path, resolved, quality),
    ensures
        is_first_step(step, input_path, resolved, other),
{
}

/// An extension without a backend calls for nothing: no job exists that
/// could write a file.
pub proof fn lemma_unsupported_calls_for_nothing(
    step: NextStep,
    input_path: Seq<char>,
    resolved: ResolvedText,
    quality: Option<u8>,
)
    requires
        strategy_for(resolved.extension) == Strategy::Unsupported,
        is_first_step(step, input_path, resolved, quality),
    ensures
        step is Nothing,
{
}

} // verus!

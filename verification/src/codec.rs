//! The image backends: decode the input, encode it again.
//!
//! Decoding and encoding are the work of the `image` crate. Its results are
//! named by spec functions without a body: the contracts say which calls are
//! made on what and which failure each error becomes, not what the bytes are.
//! Reading the input file and writing the output file are left to the caller.

use vstd::prelude::*;
use crate::error::{CompressionError, CompressionOutcome};

verus! {

/// Declares `image::DynamicImage`, a decoded picture. Nothing inside it is
/// visible to the proofs; it is only carried from the decoder to an encoder.
#[verifier::external_type_specification]
#[verifier::external_body]
pub struct ExDynamicImage(image::DynamicImage);

/// Declares `image::ImageFormat`, the crate's list of formats. It is only
/// carried from the look-up of the extension to the decoder.
#[verifier::external_type_specification]
#[verifier::external_body]
pub struct ExImageFormat(image::ImageFormat);

/// Declares `image::ImageError`. Its content is not looked at: every error of
/// a step becomes the one failure of that step.
#[verifier::external_type_specification]
#[verifier::external_body]
pub struct ExImageError(image::ImageError);

/// The format that `ImageFormat::from_extension` finds for an extension.
pub uninterp spec fn format_named(extension: Seq<char>) -> Option<image::ImageFormat>;

/// The picture that `image::load_from_memory_with_format` decodes from the
/// bytes, or `None` where it reports an error. Decoding is a computation on
/// the bytes alone: it reads no file and no setting of the machine.
pub uninterp spec fn decoded_picture(data: Seq<u8>, format: image::ImageFormat) -> Option<
    image::DynamicImage,
>;

/// The bytes that `JpegEncoder::encode_image` writes for a picture at a
/// quality, or `None` where it reports an error.
pub uninterp spec fn jpeg_encoding(picture: image::DynamicImage, quality: u8) -> Option<Seq<u8>>;

/// The bytes that `PngEncoder` writes for a picture, or `None` where it
/// reports an error.
pub uninterp spec fn png_encoding(picture: image::DynamicImage) -> Option<Seq<u8>>;

/// Whether the byte buffer of a picture has exactly the length that its
/// width, height and colour type call for.
pub uninterp spec fn buffer_fits(picture: image::DynamicImage) -> bool;

/// Calls `ImageFormat::from_extension`, which looks the extension up in the
/// crate's table of formats. The result is named, not described.
#[verifier::external_body]
fn format_of(extension: &str) -> (format: Option<image::ImageFormat>)
    ensures
        format == format_named(extension@),
{
    image::ImageFormat::from_extension(extension)
}

/// Calls `image::load_from_memory_with_format`. The result is named, not
/// described. Of a decoded picture it is claimed besides that its buffer has
/// the length that its size calls for: the decoder allocates it so.
#[verifier::external_body]
fn decode(data: &[u8], format: image::ImageFormat) -> (decoded: Result<
    image::DynamicImage,
    image::ImageError,
>)
    ensures
        match decoded {
            Ok(picture) => decoded_picture(data@, format) == Some(picture) && buffer_fits(picture),
            Err(_) => decoded_picture(data@, format) is None,
        },
{
    image::load_from_memory_with_format(data, format)
}

/// Calls `JpegEncoder::new_with_quality` and `JpegEncoder::encode_image` on a
/// buffer in memory. The encoder takes any quality, reading 0 as 1, and
/// reports a picture that it cannot encode as an error. The result is named,
/// not described.
#[verifier::external_body]
fn encode_jpeg(picture: &image::DynamicImage, quality: u8) -> (encoded: Result<
    Vec<u8>,
    image::ImageError,
>)
    ensures
        match encoded {
            Ok(bytes) => jpeg_encoding(*picture, quality) == Some(bytes@),
            Err(_) => jpeg_encoding(*picture, quality) is None,
        },
{
    let mut bytes = Vec::new();
    let mut encoder = image::codecs::jpeg::JpegEncoder::new_with_quality(&mut bytes, quality);
    encoder.encode_image(picture).map(|_| bytes)
}

/// Calls `PngEncoder::new` and `ImageEncoder::write_image` on a buffer in
/// memory, with the picture's own bytes, size and colour type. The encoder
/// panics on a buffer of the wrong length, hence the precondition. The result
/// is named, not described.
#[verifier::external_body]
fn encode_png(picture: &image::DynamicImage) -> (encoded: Result<Vec<u8>, image::ImageError>)
    requires
        buffer_fits(*picture),
    ensures
        match encoded {
            Ok(bytes) => png_encoding(*picture) == Some(bytes@),
            Err(_) => png_encoding(*picture) is None,
        },
{
    let mut bytes = Vec::new();
    let encoder = image::codecs::png::PngEncoder::new(&mut bytes);
    image::ImageEncoder::write_image(
        encoder,
        picture.as_bytes(),
        picture.width(),
        picture.height(),
        picture.color().into(),
    ).map(|_| bytes)
}

/// The encoder of an image backend, with its setting.
#[derive(Clone, Copy, Debug, PartialEq, Eq, Structural)]
pub enum Codec {
    /// JPEG at the given encoder quality.
    Jpeg { quality: u8 },
    /// PNG with the encoder's own compression and filter. It has no setting.
    Png,
}

/// What reading the input file gave.
#[derive(Clone, Debug, PartialEq, Eq)]
pub enum InputRead {
    /// The file could not be read.
    Unreadable,
    /// The whole content of the file.
    Bytes(Vec<u8>),
}

/// An image waiting to be encoded again.
#[derive(Clone, Debug, PartialEq, Eq)]
pub struct ReencodeJob {
    /// The file to read.
    pub input_path: String,
    /// The file to write.
    pub output_path: String,
    /// The lowercase extension of the input, which tells the decoder what
    /// format to expect.
    pub extension: String,
    /// The encoder to use.
    pub codec: Codec,
}

/// An encoded image waiting to be written.
#[derive(Clone, Debug, PartialEq, Eq)]
pub struct EncodedOutput {
    /// The file to write.
    pub output_path: String,
    /// The content to write.
    pub bytes: Vec<u8>,
}

/// The bytes that a codec writes for a picture, or `None` where it reports an
/// error. Only JPEG has a setting.
pub open spec fn encoding(codec: Codec, picture: image::DynamicImage) -> Option<Seq<u8>> {
    match codec {
        Codec::Jpeg { quality } => jpeg_encoding(picture, quality),
        Codec::Png => png_encoding(picture),
    }
}

/// The result of decoding the bytes as the format that the extension names
/// and encoding the picture again.
///
/// An extension that names no image format and bytes that do not decode give
/// `Decode`; a picture that the encoder rejects gives `Encode`.
pub open spec fn reencoded(extension: Seq<char>, codec: Codec, data: Seq<u8>) -> Result<
    Seq<u8>,
    CompressionError,
> {
    match format_named(extension) {
        None => Err(CompressionError::Decode),
        Some(format) => match decoded_picture(data, format) {
            None => Err(CompressionError::Decode),
            Some(picture) => match encoding(codec, picture) {
                Some(bytes) => Ok(bytes),
                None => Err(CompressionError::Encode),
            },
        },
    }
}

/// What the end of decoding means for the request.
pub fn decoding_outcome(decoded: Result<image::DynamicImage, image::ImageError>) -> (outcome:
    Result<image::DynamicImage, CompressionError>)
    ensures
        match decoded {
            Ok(picture) => outcome == Ok::<image::DynamicImage, CompressionError>(picture),
            Err(_) => outcome == Err::<image::DynamicImage, CompressionError>(
                CompressionError::Decode,
            ),
        },
{
    match decoded {
        Ok(picture) => Ok(picture),
        Err(_) => Err(CompressionError::Decode),
    }
}

/// What the end of encoding means for the request.
pub fn encoding_outcome(
    output_path: String,
    encoded: Result<Vec<u8>, image::ImageError>,
) -> (outcome: Result<EncodedOutput, CompressionError>)
    ensures
        match encoded {
            Ok(bytes) => outcome is Ok && outcome->Ok_0.output_path@ == output_path@
                && outcome->Ok_0.bytes == bytes,
            Err(_) => outcome == Err::<EncodedOutput, CompressionError>(CompressionError::Encode),
        },
{
    match encoded {
        Ok(bytes) => Ok(EncodedOutput { output_path, bytes }),
        Err(_) => Err(CompressionError::Encode),
    }
}

impl ReencodeJob {
    /// Decodes the input and encodes it again.
    ///
    /// An unreadable input ends the request with `Read`. Otherwise the result
    /// is that of `reencoded`, to be written to the job's output path.
    pub fn encode(self, input: InputRead) -> (outcome: Result<EncodedOutput, CompressionError>)
        ensures
            match input {
                InputRead::Unreadable => outcome == Err::<EncodedOutput, CompressionError>(
                    CompressionError::Read,
                ),
                InputRead::Bytes(data) => match outcome {
                    Ok(output) => output.output_path@ == self.output_path@ && reencoded(
                        self.extension@,
                        self.codec,
                        data@,
                    ) == Ok::<Seq<u8>, CompressionError>(output.bytes@),
                    Err(error) => reencoded(self.extension@, self.codec, data@) == Err::<
                        Seq<u8>,
                        CompressionError,
                    >(error),
                },
            },
    {
        match input {
            InputRead::Unreadable => Err(CompressionError::Read),
            InputRead::Bytes(data) => {
                let format = match format_of(self.extension.as_str()) {
                    Some(format) => format,
                    None => {
                        return Err(CompressionError::Decode);
                    },
                };
                let picture = match decoding_outcome(decode(data.as_slice(), format)) {
                    Ok(picture) => picture,
                    Err(error) => {
                        return Err(error);
                    },
                };
                let encoded = match self.codec {
                    Codec::Jpeg { quality } => encode_jpeg(&picture, quality),
                    Codec::Png => encode_png(&picture),
                };
                encoding_outcome(self.output_path, encoded)
            },
        }
    }
}

impl EncodedOutput {
    /// Turns the end of writing into the result of the request: the output
    /// path where the file was written, `Encode` where it was not.
    pub fn conclude(self, written: bool) -> (outcome: CompressionOutcome)
        ensures
            match outcome {
                Ok(path) => written && path@ == self.output_path@,
                Err(error) => !written && error == CompressionError::Encode,
            },
    {
        if written {
            Ok(self.output_path)
        } else {
            Err(CompressionError::Encode)
        }
    }
}

} // verus!

use cmd_compressor::codec::{Codec, InputRead, ReencodeJob};
use cmd_compressor::dispatch::{compress, compress_file, NextStep};
use cmd_compressor::error::CompressionError;
use cmd_compressor::pdf::{ProcessReport, RewriteJob};
use cmd_compressor::quality::PdfPreset;
use cmd_compressor::resolve::{resolve, ResolvedOutput};

fn rewrite(step: Result<NextStep, CompressionError>) -> RewriteJob {
    match step {
        Ok(NextStep::Rewrite(job)) => job,
        other => panic!("not a rewrite: {:?}", other),
    }
}

fn reencode(step: Result<NextStep, CompressionError>) -> ReencodeJob {
    match step {
        Ok(NextStep::Reencode(job)) => job,
        other => panic!("not a reencode: {:?}", other),
    }
}

#[test]
fn unsupported_extension_calls_for_nothing() {
    assert_eq!(compress_file("/notes/todo.txt", None, None), Ok(NextStep::Nothing));
    assert_eq!(compress_file("/notes/todo.txt", Some("x"), Some(50)), Ok(NextStep::Nothing));
    assert_eq!(compress_file("/notes/README", None, Some(10)), Ok(NextStep::Nothing));
    assert_eq!(compress_file("/notes/movie.GIF", None, None), Ok(NextStep::Nothing));
}

#[test]
fn missing_parent_fails_before_any_work() {
    assert_eq!(compress_file("/", None, None), Err(CompressionError::Resolution));
    assert_eq!(compress_file("", Some("out"), Some(10)), Err(CompressionError::Resolution));
}

#[test]
fn pdf_without_quality_is_rewritten_with_the_default_preset() {
    let job = rewrite(compress_file("/docs/report.pdf", None, None));
    assert_eq!(
        job,
        RewriteJob {
            input_path: "/docs/report.pdf".to_string(),
            output_path: "/docs/report_compressed.pdf".to_string(),
            preset: PdfPreset::Default,
        }
    );
    assert_eq!(job.arguments()[2], "-dPDFSETTINGS=/default");
    assert_eq!(job.arguments()[6], "-sOutputFile=/docs/report_compressed.pdf");
    assert_eq!(job.arguments()[7], "/docs/report.pdf");
    assert_eq!(
        job.conclude(ProcessReport::Exited { success: true }),
        Ok("/docs/report_compressed.pdf".to_string())
    );
}

#[test]
fn pdf_preset_follows_the_quality() {
    assert_eq!(rewrite(compress_file("/d/a.pdf", None, Some(0))).preset, PdfPreset::Default);
    assert_eq!(rewrite(compress_file("/d/a.pdf", None, Some(10))).preset, PdfPreset::Prepress);
    assert_eq!(rewrite(compress_file("/d/a.pdf", None, Some(40))).preset, PdfPreset::Printer);
    assert_eq!(rewrite(compress_file("/d/a.pdf", None, Some(60))).preset, PdfPreset::Ebook);
    assert_eq!(rewrite(compress_file("/d/a.pdf", None, Some(100))).preset, PdfPreset::Screen);
}

#[test]
fn uppercase_pdf_is_rewritten_too() {
    let job = rewrite(compress_file("/docs/Report.PDF", Some("small"), Some(80)));
    assert_eq!(job.input_path, "/docs/Report.PDF");
    assert_eq!(job.output_path, "/docs/small.pdf");
    assert_eq!(job.preset, PdfPreset::Screen);
}

#[test]
fn uppercase_jpeg_with_name_and_quality_ninety() {
    let job = reencode(compress_file("/cam/IMG_01.JPG", Some("out"), Some(90)));
    assert_eq!(
        job,
        ReencodeJob {
            input_path: "/cam/IMG_01.JPG".to_string(),
            output_path: "/cam/out.jpg".to_string(),
            extension: "jpg".to_string(),
            codec: Codec::Jpeg { quality: 10 },
        }
    );
    let picture = image::RgbImage::from_fn(20, 10, |x, y| image::Rgb([x as u8, y as u8, 7]));
    let mut data = Vec::new();
    image::codecs::jpeg::JpegEncoder::new(&mut data).encode_image(&picture).unwrap();
    let mut expected = Vec::new();
    image::codecs::jpeg::JpegEncoder::new_with_quality(&mut expected, 10)
        .encode_image(&image::load_from_memory(&data).unwrap())
        .unwrap();
    let output = job.encode(InputRead::Bytes(data)).unwrap();
    assert_eq!(output.output_path, "/cam/out.jpg");
    assert_eq!(output.bytes, expected);
    assert_eq!(output.conclude(true), Ok("/cam/out.jpg".to_string()));
}

#[test]
fn jpeg_without_quality_is_encoded_at_thirty() {
    let job = reencode(compress_file("/cam/a.jpeg", None, None));
    assert_eq!(job.codec, Codec::Jpeg { quality: 30 });
    assert_eq!(job.output_path, "/cam/a_compressed.jpeg");
    assert_eq!(job.extension, "jpeg");
}

#[test]
fn jpeg_quality_out_of_range_is_capped() {
    let job = reencode(compress_file("/cam/a.jpg", None, Some(250)));
    assert_eq!(job.codec, Codec::Jpeg { quality: 0 });
}

#[test]
fn img_extension_takes_the_jpeg_backend() {
    let job = reencode(compress_file("/cam/disk.img", None, Some(0)));
    assert_eq!(job.codec, Codec::Jpeg { quality: 100 });
    assert_eq!(job.output_path, "/cam/disk_compressed.img");
}

#[test]
fn png_ignores_the_quality() {
    let plain = reencode(compress_file("/art/logo.png", None, None));
    assert_eq!(
        plain,
        ReencodeJob {
            input_path: "/art/logo.png".to_string(),
            output_path: "/art/logo_compressed.png".to_string(),
            extension: "png".to_string(),
            codec: Codec::Png,
        }
    );
    for quality in [0u8, 1, 50, 100, 255] {
        assert_eq!(reencode(compress_file("/art/logo.png", None, Some(quality))), plain);
    }
}

#[test]
fn png_request_keeps_the_pixels() {
    let picture = image::RgbaImage::from_fn(11, 13, |x, y| {
        image::Rgba([x as u8, y as u8, (x * y) as u8, 255 - x as u8])
    });
    let mut data = std::io::Cursor::new(Vec::new());
    picture.write_to(&mut data, image::ImageFormat::Png).unwrap();
    let job = reencode(compress_file("/art/logo.png", None, Some(33)));
    let output = job.encode(InputRead::Bytes(data.into_inner())).unwrap();
    assert_eq!(output.output_path, "/art/logo_compressed.png");
    let again = image::load_from_memory_with_format(&output.bytes, image::ImageFormat::Png)
        .unwrap();
    assert_eq!(again.to_rgba8(), picture);
}

#[test]
fn compress_dispatches_on_the_resolved_extension() {
    let resolved = ResolvedOutput {
        extension: "png".to_string(),
        output_path: "/elsewhere/x.png".to_string(),
    };
    assert_eq!(
        compress("/in/whatever.bin", resolved, Some(5)),
        NextStep::Reencode(ReencodeJob {
            input_path: "/in/whatever.bin".to_string(),
            output_path: "/elsewhere/x.png".to_string(),
            extension: "png".to_string(),
            codec: Codec::Png,
        })
    );
}

#[test]
fn compress_of_an_unsupported_extension_does_nothing() {
    let resolved = ResolvedOutput {
        extension: "txt".to_string(),
        output_path: "/a/b_compressed.txt".to_string(),
    };
    assert_eq!(compress("/a/b.txt", resolved, None), NextStep::Nothing);
}

#[test]
fn compress_file_is_resolve_then_compress() {
    for input in ["/a/b.pdf", "/a/B.JPG", "c.png", "/a/d.txt"] {
        for quality in [None, Some(0u8), Some(60), Some(100)] {
            let resolved = resolve(input, Some("n")).unwrap();
            assert_eq!(
                compress_file(input, Some("n"), quality),
                Ok(compress(input, resolved, quality))
            );
        }
    }
}

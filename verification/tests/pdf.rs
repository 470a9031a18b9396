use cmd_compressor::error::CompressionError;
use cmd_compressor::pdf::{ProcessReport, RewriteJob};
use cmd_compressor::quality::PdfPreset;

fn job(preset: PdfPreset) -> RewriteJob {
    RewriteJob {
        input_path: "/docs/report.pdf".to_string(),
        output_path: "/docs/report_compressed.pdf".to_string(),
        preset,
    }
}

#[test]
fn rewriter_is_called_by_its_fixed_name() {
    assert_eq!(job(PdfPreset::Default).program(), "gswin64c");
}

#[test]
fn arguments_follow_the_template() {
    assert_eq!(
        job(PdfPreset::Default).arguments(),
        vec![
            "-sDEVICE=pdfwrite",
            "-dCompatibilityLevel=1.4",
            "-dPDFSETTINGS=/default",
            "-dNOPAUSE",
            "-dQUIET",
            "-dBATCH",
            "-sOutputFile=/docs/report_compressed.pdf",
            "/docs/report.pdf",
        ]
    );
}

#[test]
fn preset_is_put_into_the_settings_argument() {
    assert_eq!(job(PdfPreset::Prepress).arguments()[2], "-dPDFSETTINGS=/prepress");
    assert_eq!(job(PdfPreset::Printer).arguments()[2], "-dPDFSETTINGS=/printer");
    assert_eq!(job(PdfPreset::Ebook).arguments()[2], "-dPDFSETTINGS=/ebook");
    assert_eq!(job(PdfPreset::Screen).arguments()[2], "-dPDFSETTINGS=/screen");
}

#[test]
fn output_and_input_are_the_last_two_arguments() {
    let arguments = job(PdfPreset::Screen).arguments();
    assert_eq!(arguments.len(), 8);
    assert_eq!(arguments[6], "-sOutputFile=/docs/report_compressed.pdf");
    assert_eq!(arguments[7], "/docs/report.pdf");
}

#[test]
fn paths_with_spaces_stay_one_argument() {
    let job = RewriteJob {
        input_path: "/my docs/a b.pdf".to_string(),
        output_path: "/my docs/a b_compressed.pdf".to_string(),
        preset: PdfPreset::Ebook,
    };
    let arguments = job.arguments();
    assert_eq!(arguments.len(), 8);
    assert_eq!(arguments[6], "-sOutputFile=/my docs/a b_compressed.pdf");
    assert_eq!(arguments[7], "/my docs/a b.pdf");
}

#[test]
fn zero_exit_status_is_success_with_the_output_path() {
    assert_eq!(
        job(PdfPreset::Default).conclude(ProcessReport::Exited { success: true }),
        Ok("/docs/report_compressed.pdf".to_string())
    );
}

#[test]
fn other_exit_status_is_a_failure() {
    assert_eq!(
        job(PdfPreset::Default).conclude(ProcessReport::Exited { success: false }),
        Err(CompressionError::ExitStatus)
    );
}

#[test]
fn rewriter_that_did_not_start_is_a_launch_failure() {
    assert_eq!(
        job(PdfPreset::Default).conclude(ProcessReport::NotLaunched),
        Err(CompressionError::Launch)
    );
}

//! The PDF backend: an external rewriter, run as a command.
//!
//! The library says which command to run and what its end means. Running it
//! is left to the caller.

use vstd::prelude::*;
use crate::error::{CompressionError, CompressionOutcome};
use crate::quality::{setting_name, PdfPreset};

verus! {

/// How the run of the rewriter ended.
#[derive(Clone, Copy, Debug, PartialEq, Eq, Structural)]
pub enum ProcessReport {
    /// The program could not be started.
    NotLaunched,
    /// The program ran to its end; `success` tells whether its exit status
    /// was zero.
    Exited { success: bool },
}

/// A PDF waiting to be rewritten.
#[derive(Clone, Debug, PartialEq, Eq)]
pub struct RewriteJob {
    /// The file to read.
    pub input_path: String,
    /// The file to write.
    pub output_path: String,
    /// The settings to rewrite with.
    pub preset: PdfPreset,
}

/// The name of the rewriter, looked up on the search path.
pub open spec fn rewriter_name() -> Seq<char> {
    "gswin64c"@
}

/// The arguments of the rewriter: a fixed template around the preset, the
/// output path and, last, the input path.
pub open spec fn rewriter_arguments(
    preset: PdfPreset,
    output_path: Seq<char>,
    input_path: Seq<char>,
) -> Seq<Seq<char>> {
    seq![
        "-sDEVICE=pdfwrite"@,
        "-dCompatibilityLevel=1.4"@,
        "-dPDFSETTINGS="@ + setting_name(preset),
        "-dNOPAUSE"@,
        "-dQUIET"@,
        "-dBATCH"@,
        "-sOutputFile="@ + output_path,
        input_path,
    ]
}

/// What a report means for the request: the output path where the rewriter
/// exited with success, a failure otherwise.
pub open spec fn rewrite_outcome(output_path: Seq<char>, report: ProcessReport) -> Result<
    Seq<char>,
    CompressionError,
> {
    match report {
        ProcessReport::NotLaunched => Err(CompressionError::Launch),
        ProcessReport::Exited { success } => if success {
            Ok(output_path)
        } else {
            Err(CompressionError::ExitStatus)
        },
    }
}

/// The characters of each text of a list.
pub open spec fn texts(list: Seq<String>) -> Seq<Seq<char>> {
    list.map_values(|text: String| text@)
}

impl RewriteJob {
    /// The name of the program to run.
    pub fn program(&self) -> (name: &'static str)
        ensures
            name@ == rewriter_name(),
    {
        "gswin64c"
    }

    /// The arguments to run the program with.
    pub fn arguments(&self) -> (arguments: Vec<String>)
        ensures
            texts(arguments@) == rewriter_arguments(
                self.preset,
                self.output_path@,
                self.input_path@,
            ),
    {
        let mut settings = "-dPDFSETTINGS=".to_owned();
        settings.append(self.preset.setting());
        let mut output = "-sOutputFile=".to_owned();
        output.append(self.output_path.as_str());
        let mut arguments: Vec<String> = Vec::new();
        arguments.push("-sDEVICE=pdfwrite".to_owned());
        arguments.push("-dCompatibilityLevel=1.4".to_owned());
        arguments.push(settings);
        arguments.push("-dNOPAUSE".to_owned());
        arguments.push("-dQUIET".to_owned());
        arguments.push("-dBATCH".to_owned());
        arguments.push(output);
        arguments.push(self.input_path.clone());
        proof {
            assert(texts(arguments@) =~= rewriter_arguments(
                self.preset,
                self.output_path@,
                self.input_path@,
            ));
        }
        arguments
    }

    /// Turns the end of the run into the result of the request. The exit
    /// status alone decides: the output file is not looked at.
    pub fn conclude(self, report: ProcessReport) -> (outcome: CompressionOutcome)
        ensures
            match outcome {
                Ok(path) => rewrite_outcome(self.output_path@, report) == Ok::<
                    Seq<char>,
                    CompressionError,
                >(path@),
                Err(error) => rewrite_outcome(self.output_path@, report) == Err::<
                    Seq<char>,
                    CompressionError,
                >(error),
            },
    {
        match report {
            ProcessReport::NotLaunched => Err(CompressionError::Launch),
            ProcessReport::Exited { success } => {
                if success {
                    Ok(self.output_path)
                } else {
                    Err(CompressionError::ExitStatus)
                }
            },
        }
    }
}

} // verus!

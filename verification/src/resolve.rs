//! From an input path to the path of the compressed file.
//!
//! The output lies beside the input and keeps its extension, in lowercase. Its
//! name is the caller's base name, or the input's lowercase stem followed by
//! `_compressed`.

use vstd::prelude::*;
use crate::error::CompressionError;
use crate::file_name::{
    extension_of, lemma_split_of_joined, name_extension, name_stem, stem_of,
};
use crate::path::{
    file_name, join, lowercase, lowercased, parent, path_file_name, path_join, path_parent,
};
use crate::strategy::{lemma_supported_extension, strategy_for, Strategy};

verus! {

/// Where the output of a request goes.
#[derive(Clone, Debug, PartialEq, Eq)]
pub struct ResolvedOutput {
    /// The input's extension in lowercase, or the empty text.
    pub extension: String,
    /// The path of the file to write.
    pub output_path: String,
}

/// A `ResolvedOutput` as plain text.
pub struct ResolvedText {
    pub extension: Seq<char>,
    pub output_path: Seq<char>,
}

impl View for ResolvedOutput {
    type V = ResolvedText;

    open spec fn view(&self) -> ResolvedText {
        ResolvedText { extension: self.extension@, output_path: self.output_path@ }
    }
}

/// The characters of an optional borrowed text.
pub open spec fn chars_of(text: Option<&str>) -> Option<Seq<char>> {
    match text {
        Some(t) => Some(t@),
        None => None,
    }
}

/// The lowercase extension of the input path, empty where it has none.
pub open spec fn input_extension(path: Seq<char>) -> Seq<char> {
    lowercased(
        match path_file_name(path) {
            Some(name) => match name_extension(name) {
                Some(extension) => extension,
                None => Seq::empty(),
            },
            None => Seq::empty(),
        },
    )
}

/// The lowercase stem of the input path, empty where it has no file name.
pub open spec fn input_stem(path: Seq<char>) -> Seq<char> {
    lowercased(
        match path_file_name(path) {
            Some(name) => name_stem(name),
            None => Seq::empty(),
        },
    )
}

/// The base name of the output where the caller gives none.
pub open spec fn default_base_name(path: Seq<char>) -> Seq<char> {
    input_stem(path) + "_compressed"@
}

/// The base name of the output: the caller's, or the default.
pub open spec fn output_base_name(path: Seq<char>, base: Option<Seq<char>>) -> Seq<char> {
    match base {
        Some(given) => given,
        None => default_base_name(path),
    }
}

/// The file name of the output: base name, dot, extension.
pub open spec fn output_file_name(path: Seq<char>, base: Option<Seq<char>>) -> Seq<char> {
    output_base_name(path, base) + seq!['.'] + input_extension(path)
}

/// The resolved output of a request, or `None` where the input path has no
/// parent directory.
pub open spec fn resolution(path: Seq<char>, base: Option<Seq<char>>) -> Option<ResolvedText> {
    match path_parent(path) {
        Some(directory) => Some(
            ResolvedText {
                extension: input_extension(path),
                output_path: path_join(directory, output_file_name(path, base)),
            },
        ),
        None => None,
    }
}

/// The lowercase extension of a path.
pub fn lowercase_extension(path: &str) -> (extension: String)
    ensures
        extension@ == input_extension(path@),
{
    proof {
        reveal_strlit("");
        assert(""@ =~= Seq::<char>::empty());
    }
    match file_name(path) {
        Some(name) => match extension_of(name.as_str()) {
            Some(extension) => lowercase(extension.as_str()),
            None => lowercase(""),
        },
        None => lowercase(""),
    }
}

/// The lowercase stem of a path.
pub fn lowercase_stem(path: &str) -> (stem: String)
    ensures
        stem@ == input_stem(path@),
{
    proof {
        reveal_strlit("");
        assert(""@ =~= Seq::<char>::empty());
    }
    match file_name(path) {
        Some(name) => {
            let stem = stem_of(name.as_str());
            lowercase(stem.as_str())
        },
        None => lowercase(""),
    }
}

/// The base name of the output where the caller gives none: the lowercase
/// stem of the input followed by `_compressed`.
pub fn default_name(path: &str) -> (name: String)
    ensures
        name@ == default_base_name(path@),
{
    let mut name = lowercase_stem(path);
    name.append("_compressed");
    name
}

/// Derives the output path of a request.
///
/// Fails with `CompressionError::Resolution` exactly when the input path has
/// no parent directory.
pub fn resolve(input_path: &str, output_base_name: Option<&str>) -> (resolved: Result<
    ResolvedOutput,
    CompressionError,
>)
    ensures
        match resolved {
            Ok(output) => resolution(input_path@, chars_of(output_base_name)) == Some(output@),
            Err(error) => error == CompressionError::Resolution && resolution(
                input_path@,
                chars_of(output_base_name),
            ) is None,
        },
{
    let extension = lowercase_extension(input_path);
    let mut name = match output_base_name {
        Some(given) => given.to_owned(),
        None => default_name(input_path),
    };
    proof {
        reveal_strlit(".");
        assert("."@ =~= seq!['.']);
    }
    name.append(".");
    name.append(extension.as_str());
    match parent(input_path) {
        Some(directory) => {
            let output_path = join(directory.as_str(), name.as_str());
            Ok(ResolvedOutput { extension, output_path })
        },
        None => Err(CompressionError::Resolution),
    }
}

/// The output lies beside the input and keeps its extension.
///
/// For an input with a parent directory and an extension that has a backend,
/// and a base name that is not empty: the output path is the output file name
/// adjoined to the input's parent directory, and the output file name splits
/// into the base name and the input's lowercase extension. The directory is
/// the one handed to `Path::join`; what `Path::parent` makes of the joined
/// path is not stated.
pub proof fn lemma_output_beside_input(path: Seq<char>, base: Option<Seq<char>>)
    requires
        path_parent(path) is Some,
        strategy_for(input_extension(path)) != Strategy::Unsupported,
        base is Some ==> base->0.len() > 0,
    ensures
        resolution(path, base) is Some,
        resolution(path, base)->0.extension == input_extension(path),
        resolution(path, base)->0.output_path == path_join(
            path_parent(path)->0,
            output_file_name(path, base),
        ),
        name_extension(output_file_name(path, base)) == Some(input_extension(path)),
        name_stem(output_file_name(path, base)) == output_base_name(path, base),
{
    reveal_strlit("_compressed");
    lemma_supported_extension(input_extension(path));
    lemma_split_of_joined(output_base_name(path, base), input_extension(path));
}

} // verus!

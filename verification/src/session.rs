//! The state of an interactive session and the steps that change it.
//!
//! A front end shows the state and reports what the user did; every change
//! of the state is one of the methods here.

use vstd::prelude::*;
use crate::path::text_of;
use crate::quality::DEFAULT_QUALITY;
use crate::resolve::{default_base_name, default_name, input_stem, lowercase_stem};

verus! {

/// What the session is doing.
#[derive(Clone, Copy, Debug, PartialEq, Eq, Structural)]
pub enum Status {
    Default,
    Ready,
    Compressing,
    Error,
    Finished,
}

/// One request: what is to be compressed, under which name, how much.
#[derive(Clone, Debug, PartialEq, Eq)]
pub struct CompressionRequest {
    /// The file to compress.
    pub input_path: String,
    /// The name of the output without its extension, if the caller has one.
    pub output_base_name: Option<String>,
    /// The quality on the scale from 0 to 100, if the caller has one.
    pub quality: Option<u8>,
}

/// What the user has entered so far.
#[derive(Debug)]
pub struct State {
    pub status: Status,
    pub input_path: Option<String>,
    pub output_name: Option<String>,
    pub quality: u8,
}

/// The output name after a suggestion: a name is suggested only where none is
/// set, an input is chosen and its lowercase stem is not empty.
pub open spec fn suggested_name(input_path: Option<Seq<char>>, output_name: Option<Seq<char>>)
    -> Option<Seq<char>> {
    match (output_name, input_path) {
        (None, Some(path)) => if input_stem(path).len() > 0 {
            Some(default_base_name(path))
        } else {
            None
        },
        _ => output_name,
    }
}

impl State {
    /// The state of a new session: nothing chosen, quality 70.
    pub fn new() -> (state: State)
        ensures
            state.status == Status::Default,
            state.input_path is None,
            state.output_name is None,
            state.quality == DEFAULT_QUALITY,
    {
        State {
            status: Status::Default,
            input_path: None,
            output_name: None,
            quality: DEFAULT_QUALITY,
        }
    }

    /// The start of a frame: the session is ready for input.
    pub fn begin_frame(&mut self)
        ensures
            final(self).status == Status::Ready,
            final(self).input_path == old(self).input_path,
            final(self).output_name == old(self).output_name,
            final(self).quality == old(self).quality,
    {
        self.status = Status::Ready;
    }

    /// The user picked an input file.
    pub fn choose_input(&mut self, path: String)
        ensures
            final(self).input_path == Some(path),
            final(self).status == old(self).status,
            final(self).output_name == old(self).output_name,
            final(self).quality == old(self).quality,
    {
        self.input_path = Some(path);
    }

    /// Fills in the default output name where the user has set none.
    pub fn suggest_output_name(&mut self)
        ensures
            text_of(final(self).output_name) == suggested_name(
                text_of(old(self).input_path),
                text_of(old(self).output_name),
            ),
            final(self).status == old(self).status,
            final(self).input_path == old(self).input_path,
            final(self).quality == old(self).quality,
    {
        if self.output_name.is_none() {
            match &self.input_path {
                Some(path) => {
                    let stem = lowercase_stem(path.as_str());
                    if !stem.as_str().is_empty() {
                        self.output_name = Some(default_name(path.as_str()));
                    }
                },
                None => {},
            }
        }
    }

    /// Makes sure that there is an output name to edit, an empty one if need
    /// be.
    pub fn output_name_or_empty(&mut self)
        ensures
            text_of(final(self).output_name) == Some(
                match text_of(old(self).output_name) {
                    Some(name) => name,
                    None => Seq::<char>::empty(),
                },
            ),
            final(self).status == old(self).status,
            final(self).input_path == old(self).input_path,
            final(self).quality == old(self).quality,
    {
        if self.output_name.is_none() {
            self.output_name = Some(String::new());
        }
    }

    /// The user asked for compression. With an input chosen the session
    /// starts compressing and hands out the request; without one it stays
    /// ready.
    pub fn begin_compression(&mut self) -> (request: Option<CompressionRequest>)
        ensures
            match old(self).input_path {
                Some(path) => {
                    &&& final(self).status == Status::Compressing
                    &&& request is Some
                    &&& request->0.input_path@ == path@
                    &&& text_of(request->0.output_base_name) == text_of(old(self).output_name)
                    &&& request->0.quality == Some(old(self).quality)
                },
                None => final(self).status == Status::Ready && request is None,
            },
            final(self).input_path == old(self).input_path,
            final(self).output_name == old(self).output_name,
            final(self).quality == old(self).quality,
    {
        let request = match &self.input_path {
            Some(path) => Some(
                CompressionRequest {
                    input_path: path.clone(),
                    output_base_name: match &self.output_name {
                        Some(name) => Some(name.clone()),
                        None => None,
                    },
                    quality: Some(self.quality),
                },
            ),
            None => None,
        };
        if request.is_some() {
            self.status = Status::Compressing;
        } else {
            self.status = Status::Ready;
        }
        request
    }

    /// The compression ended.
    pub fn end_compression(&mut self, succeeded: bool)
        ensures
            final(self).status == if succeeded {
                Status::Finished
            } else {
                Status::Error
            },
            final(self).input_path == old(self).input_path,
            final(self).output_name == old(self).output_name,
            final(self).quality == old(self).quality,
    {
        if succeeded {
            self.status = Status::Finished;
        } else {
            self.status = Status::Error;
        }
    }
}

} // verus!

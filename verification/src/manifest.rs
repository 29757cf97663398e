//! The records that the detection phase hands to the transcoding phase.

use vstd::prelude::*;

verus! {

/// The name of the file, directly under the root, in which the manifest is
/// kept between the two phases.
pub const MANIFEST_FILE: &'static str = "encodings.json";

/// One file and the label of the encoding that its bytes were taken to be in.
#[derive(Clone, Debug, PartialEq, Eq)]
pub struct EncodingEntry {
    pub path: String,
    pub encoding: String,
}

/// What an [`EncodingEntry`] says: a path and a label, as texts.
pub struct EntryModel {
    pub path: Seq<char>,
    pub encoding: Seq<char>,
}

impl DeepView for EncodingEntry {
    type V = EntryModel;

    open spec fn deep_view(&self) -> EntryModel {
        EntryModel { path: self.path@, encoding: self.encoding@ }
    }
}

impl View for EncodingEntry {
    type V = EntryModel;

    open spec fn view(&self) -> EntryModel {
        self.deep_view()
    }
}

impl EncodingEntry {
    /// Records that the file at `path` is taken to be in `encoding`.
    pub fn new(path: &str, encoding: &str) -> (entry: EncodingEntry)
        ensures
            entry@ == (EntryModel { path: path@, encoding: encoding@ }),
    {
        EncodingEntry { path: path.to_owned(), encoding: encoding.to_owned() }
    }
}

/// The manifest: the entries of one detection run, in the order in which they
/// were recorded. Nothing keeps a path from occurring twice.
#[derive(Clone, Debug, PartialEq, Eq)]
pub struct EncodingResult {
    pub encodings: Vec<EncodingEntry>,
}

impl DeepView for EncodingResult {
    type V = Seq<EntryModel>;

    open spec fn deep_view(&self) -> Seq<EntryModel> {
        self.encodings.deep_view()
    }
}

impl View for EncodingResult {
    type V = Seq<EntryModel>;

    open spec fn view(&self) -> Seq<EntryModel> {
        self.deep_view()
    }
}

/// A file that could not be handled, with the reason in words.
#[derive(Clone, Debug, PartialEq, Eq)]
pub struct FileError {
    pub path: String,
    pub error: String,
}

/// What a [`FileError`] says, as texts.
pub struct FailureModel {
    pub path: Seq<char>,
    pub error: Seq<char>,
}

impl DeepView for FileError {
    type V = FailureModel;

    open spec fn deep_view(&self) -> FailureModel {
        FailureModel { path: self.path@, error: self.error@ }
    }
}

impl View for FileError {
    type V = FailureModel;

    open spec fn view(&self) -> FailureModel {
        self.deep_view()
    }
}

/// What came of reading a file: its bytes, or the reason why there are none.
pub open spec fn read_model(read: Result<Vec<u8>, String>) -> Result<Seq<u8>, Seq<char>> {
    match read {
        Ok(bytes) => Ok(bytes@),
        Err(reason) => Err(reason@),
    }
}

} // verus!

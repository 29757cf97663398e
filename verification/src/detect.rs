//! The detection phase: a best guess at each file's encoding, and the split of
//! the outcomes into the manifest and the files that could not be read.

use vstd::prelude::*;
use vstd::utf8::*;

use crate::charset::{ascii_with_escape, guess_label, guessed_label};
use crate::label::canonical_label;
use crate::manifest::{
    read_model, EncodingEntry, EncodingResult, EntryModel, FailureModel, FileError,
};

verus! {

/// What detection found out about one candidate file.
#[derive(Clone, Debug, PartialEq, Eq)]
pub enum DetectionOutcome {
    /// The file was read and its encoding guessed.
    Detected(EncodingEntry),
    /// The file could not be read.
    IoError { path: String, error: String },
}

/// What a [`DetectionOutcome`] says.
pub enum OutcomeModel {
    Detected(EntryModel),
    IoError { path: Seq<char>, error: Seq<char> },
}

impl DeepView for DetectionOutcome {
    type V = OutcomeModel;

    open spec fn deep_view(&self) -> OutcomeModel {
        match *self {
            DetectionOutcome::Detected(entry) => OutcomeModel::Detected(entry@),
            DetectionOutcome::IoError { path, error } => OutcomeModel::IoError {
                path: path@,
                error: error@,
            },
        }
    }
}

impl View for DetectionOutcome {
    type V = OutcomeModel;

    open spec fn view(&self) -> OutcomeModel {
        self.deep_view()
    }
}

/// The outcome for the file at `path`, given what reading it brought.
pub open spec fn detection_of(path: Seq<char>, read: Result<Seq<u8>, Seq<char>>) -> OutcomeModel {
    match read {
        Ok(bytes) => OutcomeModel::Detected(
            EntryModel { path: path, encoding: guessed_label(bytes) },
        ),
        Err(reason) => OutcomeModel::IoError { path: path, error: reason },
    }
}

/// Guesses the encoding of one file from the whole of its contents. `read` is
/// what reading the file brought: its bytes, or the reason for the failure in
/// words. A failed read is an outcome like any other. The guess depends on the
/// bytes alone, and a file of valid UTF-8 is taken to be UTF-8 unless it is
/// all ASCII with an escape byte in it.
pub fn detect_encoding(path: &str, read: Result<Vec<u8>, String>) -> (outcome: DetectionOutcome)
    ensures
        outcome@ == detection_of(path@, read_model(read)),
        read matches Ok(bytes) && valid_utf8(bytes@) && !ascii_with_escape(bytes@) ==> outcome@
            == OutcomeModel::Detected(EntryModel { path: path@, encoding: canonical_label() }),
{
    match read {
        Ok(bytes) => {
            let label = guess_label(bytes.as_slice());
            DetectionOutcome::Detected(EncodingEntry { path: path.to_owned(), encoding: label })
        },
        Err(reason) => DetectionOutcome::IoError { path: path.to_owned(), error: reason },
    }
}

/// The entry that an outcome adds to the manifest, if it adds one.
pub open spec fn detected_entry(outcome: OutcomeModel) -> Option<EntryModel> {
    match outcome {
        OutcomeModel::Detected(entry) => Some(entry),
        OutcomeModel::IoError { .. } => None,
    }
}

/// The read failure that an outcome reports, if it reports one.
pub open spec fn read_failure(outcome: OutcomeModel) -> Option<FailureModel> {
    match outcome {
        OutcomeModel::Detected(_) => None,
        OutcomeModel::IoError { path, error } => Some(FailureModel { path: path, error: error }),
    }
}

/// The entries of the outcomes that detected an encoding, in their order.
pub open spec fn detected_entries(outcomes: Seq<OutcomeModel>) -> Seq<EntryModel> {
    outcomes.filter_map(|outcome: OutcomeModel| detected_entry(outcome))
}

/// The failures of the outcomes that could not read their file, in their order.
pub open spec fn read_failures(outcomes: Seq<OutcomeModel>) -> Seq<FailureModel> {
    outcomes.filter_map(|outcome: OutcomeModel| read_failure(outcome))
}

/// What a detection run leaves behind: the manifest to persist, and the
/// files that could not be read, which are reported and never end the run.
#[derive(Clone, Debug, PartialEq, Eq)]
pub struct DetectionReport {
    pub manifest: EncodingResult,
    pub io_errors: Vec<FileError>,
}

/// Gathers the outcomes of a detection run: every detected encoding goes to
/// the manifest and every failed read to the list of errors, each in the order
/// of the outcomes. No outcome is dropped and none ends the run.
pub fn run_detection(outcomes: Vec<DetectionOutcome>) -> (report: DetectionReport)
    ensures
        report.manifest@ == detected_entries(outcomes.deep_view()),
        report.io_errors.deep_view() == read_failures(outcomes.deep_view()),
{
    let ghost all = outcomes.deep_view();
    let mut encodings: Vec<EncodingEntry> = Vec::new();
    let mut io_errors: Vec<FileError> = Vec::new();
    for outcome in it: outcomes.into_iter()
        invariant
            it.seq().len() == all.len(),
            forall|k: int| 0 <= k < all.len() ==> (#[trigger] it.seq()[k]).deep_view() == all[k],
            encodings.deep_view() == detected_entries(all.take(it.index() as int)),
            io_errors.deep_view() == read_failures(all.take(it.index() as int)),
    {
        let ghost before = it.index() as int;
        let ghost entries = encodings.deep_view();
        let ghost failures = io_errors.deep_view();
        proof {
            all.lemma_filter_map_take_succ(|o: OutcomeModel| detected_entry(o), before);
            all.lemma_filter_map_take_succ(|o: OutcomeModel| read_failure(o), before);
        }
        match outcome {
            DetectionOutcome::Detected(entry) => {
                encodings.push(entry);
                assert(encodings.deep_view() =~= entries.push(entry@));
            },
            DetectionOutcome::IoError { path, error } => {
                io_errors.push(FileError { path, error });
                assert(io_errors.deep_view() =~= failures.push(
                    FailureModel { path: path@, error: error@ },
                ));
            },
        }
    }
    assert(all.take(all.len() as int) =~= all);
    DetectionReport { manifest: EncodingResult { encodings }, io_errors }
}

} // verus!

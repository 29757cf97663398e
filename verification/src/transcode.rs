//! The transcoding phase: what to do with one manifest entry at each point of
//! its read, decode and write cycle, and the tally of a whole run.
//!
//! A file is rewritten in three steps. [`transcode_file`] looks at the entry
//! alone and either skips the file or asks for its bytes. [`transcode_read`]
//! takes what the read brought and either ends in an error or hands out the
//! bytes to write back; [`transcode_contents`] does the same for a caller that
//! knows the file to be within [`MAX_DECODE_LEN`]. [`transcode_written`] takes
//! what the write brought and names the result. The caller does the reading
//! and the writing in between.

use vstd::prelude::*;
use vstd::string::*;
use vstd::utf8::*;

use crate::charset::{decode_label, label_known, lossy_decoding, MAX_DECODE_LEN};
use crate::label::{is_canonical, is_utf8_label};
use crate::manifest::{read_model, EncodingEntry, EntryModel, FailureModel, FileError};

verus! {

/// How the handling of one manifest entry ended.
#[derive(Clone, Debug, PartialEq, Eq)]
pub enum TranscodeResult {
    /// The entry already names the canonical encoding; the file was left alone.
    Skipped,
    /// The file was rewritten in the canonical encoding.
    Transcoded,
    /// The file could not be handled.
    Error { path: String, error: String },
}

/// What a [`TranscodeResult`] says.
pub enum ResultModel {
    Skipped,
    Transcoded,
    Error { path: Seq<char>, error: Seq<char> },
}

impl DeepView for TranscodeResult {
    type V = ResultModel;

    open spec fn deep_view(&self) -> ResultModel {
        match *self {
            TranscodeResult::Skipped => ResultModel::Skipped,
            TranscodeResult::Transcoded => ResultModel::Transcoded,
            TranscodeResult::Error { path, error } => ResultModel::Error {
                path: path@,
                error: error@,
            },
        }
    }
}

impl View for TranscodeResult {
    type V = ResultModel;

    open spec fn view(&self) -> ResultModel {
        self.deep_view()
    }
}

/// What is to happen next with the file of one manifest entry.
#[derive(Clone, Debug, PartialEq, Eq)]
pub enum TranscodeStep {
    /// Nothing more: the entry has its result.
    Done(TranscodeResult),
    /// Read the file's current bytes and hand them to [`transcode_read`].
    ReadFile,
    /// Replace the file's contents by `bytes` and hand the outcome to
    /// [`transcode_written`]. `replaced` tells that the old contents held
    /// malformed sequences, which is worth a warning and is no error.
    WriteFile { bytes: Vec<u8>, replaced: bool },
}

/// What a [`TranscodeStep`] says.
pub enum StepModel {
    Done(ResultModel),
    ReadFile,
    WriteFile { bytes: Seq<u8>, replaced: bool },
}

impl DeepView for TranscodeStep {
    type V = StepModel;

    open spec fn deep_view(&self) -> StepModel {
        match *self {
            TranscodeStep::Done(result) => StepModel::Done(result@),
            TranscodeStep::ReadFile => StepModel::ReadFile,
            TranscodeStep::WriteFile { bytes, replaced } => StepModel::WriteFile {
                bytes: bytes@,
                replaced: replaced,
            },
        }
    }
}

impl View for TranscodeStep {
    type V = StepModel;

    open spec fn view(&self) -> StepModel {
        self.deep_view()
    }
}

/// The message for a file that could not be read.
pub open spec fn read_failed(reason: Seq<char>) -> Seq<char> {
    "Failed to read file: "@ + reason
}

/// The message for an entry whose label names no known encoding.
pub open spec fn unknown_encoding(label: Seq<char>) -> Seq<char> {
    "Unknown encoding: "@ + label
}

/// The message for a file that could not be written back.
pub open spec fn write_failed(reason: Seq<char>) -> Seq<char> {
    "Failed to write file: "@ + reason
}

/// The first step for an entry: a file whose label already names the
/// canonical encoding is skipped unread, any other is to be read.
pub open spec fn first_step(entry: EntryModel) -> StepModel {
    if is_canonical(entry.encoding) {
        StepModel::Done(ResultModel::Skipped)
    } else {
        StepModel::ReadFile
    }
}

/// The step that follows the attempt to decode: without a decoder for the
/// label the entry ends in an error, and with one the decoded text goes back
/// to the file as UTF-8.
pub open spec fn rewrite_step(entry: EntryModel, decoded: Option<(Seq<char>, bool)>) -> StepModel {
    match decoded {
        Some((text, replaced)) => StepModel::WriteFile {
            bytes: encode_utf8(text),
            replaced: replaced,
        },
        None => StepModel::Done(
            ResultModel::Error { path: entry.path, error: unknown_encoding(entry.encoding) },
        ),
    }
}

/// What decoding `bytes` under `label` brings: nothing where the label is
/// unknown, else the text and whether malformed input was replaced.
pub open spec fn decoding_of(label: Seq<char>, bytes: Seq<u8>) -> Option<(Seq<char>, bool)> {
    if label_known(label) {
        Some(lossy_decoding(label, bytes))
    } else {
        None
    }
}

/// The step that follows the read: a failed read ends the entry in an error
/// before the label is even looked at, and bytes that were read are decoded.
pub open spec fn step_after_read(entry: EntryModel, read: Result<Seq<u8>, Seq<char>>) -> StepModel {
    match read {
        Ok(bytes) => rewrite_step(entry, decoding_of(entry.encoding, bytes)),
        Err(reason) => StepModel::Done(
            ResultModel::Error { path: entry.path, error: read_failed(reason) },
        ),
    }
}

/// What came of writing a file: nothing, or the reason why it failed.
pub open spec fn write_model(write: Result<(), String>) -> Result<(), Seq<char>> {
    match write {
        Ok(_) => Ok(()),
        Err(reason) => Err(reason@),
    }
}

/// The result once the write has been attempted.
pub open spec fn result_after_write(entry: EntryModel, write: Result<(), Seq<char>>) -> ResultModel {
    match write {
        Ok(_) => ResultModel::Transcoded,
        Err(reason) => ResultModel::Error { path: entry.path, error: write_failed(reason) },
    }
}

fn failure(path: &String, prefix: &str, detail: &str) -> (result: TranscodeResult)
    ensures
        result@ == (ResultModel::Error { path: path@, error: prefix@ + detail@ }),
{
    let mut error = prefix.to_owned();
    error.append(detail);
    TranscodeResult::Error { path: path.clone(), error }
}

/// Decides from the entry alone whether its file needs any work. An entry
/// whose label is the canonical one, in any case, is skipped: its file is
/// neither read nor written. This is what makes a second run a no-op.
pub fn transcode_file(entry: &EncodingEntry) -> (step: TranscodeStep)
    ensures
        step@ == first_step(entry@),
{
    if is_utf8_label(entry.encoding.as_str()) {
        TranscodeStep::Done(TranscodeResult::Skipped)
    } else {
        TranscodeStep::ReadFile
    }
}

/// Turns what the decoder made of a file into the next step. `decoded` is
/// `None` where the entry's label names no known encoding; else it holds the
/// decoded text and whether malformed input was replaced in it.
pub fn rewrite(entry: &EncodingEntry, decoded: Option<(String, bool)>) -> (step: TranscodeStep)
    ensures
        step@ == rewrite_step(
            entry@,
            match decoded {
                Some(pair) => Some((pair.0@, pair.1)),
                None => None,
            },
        ),
        step matches TranscodeStep::WriteFile { bytes, .. } ==> valid_utf8(bytes@),
{
    match decoded {
        Some((text, replaced)) => {
            proof {
                encode_utf8_valid_utf8(text@);
            }
            TranscodeStep::WriteFile { bytes: text.as_str().as_bytes_vec(), replaced }
        },
        None => TranscodeStep::Done(
            failure(&entry.path, "Unknown encoding: ", entry.encoding.as_str()),
        ),
    }
}

/// Decodes the bytes that were read for an entry and prepares the rewrite.
/// A failed read is reported first; then an unknown label, with no byte
/// touched; else the file is to be replaced by the UTF-8 form of its decoded
/// text. Malformed input never fails the entry: it is replaced and flagged.
pub fn transcode_contents(entry: &EncodingEntry, read: Result<Vec<u8>, String>) -> (step:
    TranscodeStep)
    requires
        read matches Ok(bytes) ==> bytes@.len() <= MAX_DECODE_LEN,
    ensures
        step@ == step_after_read(entry@, read_model(read)),
        step matches TranscodeStep::WriteFile { bytes, .. } ==> valid_utf8(bytes@),
        !(step is ReadFile),
{
    match read {
        Ok(bytes) => {
            let decoded = decode_label(entry.encoding.as_str(), bytes.as_slice());
            rewrite(entry, decoded)
        },
        Err(reason) => TranscodeStep::Done(
            failure(&entry.path, "Failed to read file: ", reason.as_str()),
        ),
    }
}

/// As [`transcode_contents`], for contents of any length: a file too long for
/// the decoder to take in one piece gets no step at all.
pub fn transcode_read(entry: &EncodingEntry, read: Result<Vec<u8>, String>) -> (step: Option<
    TranscodeStep,
>)
    ensures
        step is None <==> (read matches Ok(bytes) && bytes@.len() > MAX_DECODE_LEN),
        step matches Some(next) ==> {
            &&& next@ == step_after_read(entry@, read_model(read))
            &&& next matches TranscodeStep::WriteFile { bytes, .. } ==> valid_utf8(bytes@)
            &&& !(next is ReadFile)
        },
{
    let fits = match &read {
        Ok(bytes) => bytes.len() <= MAX_DECODE_LEN,
        Err(_) => true,
    };
    if fits {
        Some(transcode_contents(entry, read))
    } else {
        None
    }
}

/// Names the result of an entry whose file was to be written back.
pub fn transcode_written(entry: &EncodingEntry, write: Result<(), String>) -> (result:
    TranscodeResult)
    ensures
        result@ == result_after_write(entry@, write_model(write)),
{
    match write {
        Ok(_) => TranscodeResult::Transcoded,
        Err(reason) => failure(&entry.path, "Failed to write file: ", reason.as_str()),
    }
}

/// The failure that a result reports, if it reports one.
pub open spec fn failure_of(result: ResultModel) -> Option<FailureModel> {
    match result {
        ResultModel::Error { path, error } => Some(FailureModel { path: path, error: error }),
        _ => None,
    }
}

/// How many of the results are `Skipped`.
pub open spec fn skipped_count(results: Seq<ResultModel>) -> nat {
    results.filter(|result: ResultModel| result is Skipped).len()
}

/// How many of the results are `Transcoded`.
pub open spec fn transcoded_count(results: Seq<ResultModel>) -> nat {
    results.filter(|result: ResultModel| result is Transcoded).len()
}

/// The failures among the results, in their order.
pub open spec fn failures(results: Seq<ResultModel>) -> Seq<FailureModel> {
    results.filter_map(|result: ResultModel| failure_of(result))
}

/// The tally of a transcoding run.
#[derive(Clone, Debug, PartialEq, Eq)]
pub struct TranscodeTally {
    pub skipped: usize,
    pub transcoded: usize,
    pub errors: Vec<FileError>,
}

/// Tallies the results of a transcoding run: how many files were skipped, how
/// many rewritten, and every failure in the order of the results. One entry's
/// failure takes nothing from the count of the others.
pub fn run_transcoding(results: Vec<TranscodeResult>) -> (tally: TranscodeTally)
    ensures
        tally.skipped == skipped_count(results.deep_view()),
        tally.transcoded == transcoded_count(results.deep_view()),
        tally.errors.deep_view() == failures(results.deep_view()),
{
    let ghost all = results.deep_view();
    let total: usize = results.len();
    let mut skipped: usize = 0;
    let mut transcoded: usize = 0;
    let mut errors: Vec<FileError> = Vec::new();
    for result in it: results.into_iter()
        invariant
            it.seq().len() == all.len(),
            forall|k: int| 0 <= k < all.len() ==> (#[trigger] it.seq()[k]).deep_view() == all[k],
            skipped == skipped_count(all.take(it.index() as int)),
            transcoded == transcoded_count(all.take(it.index() as int)),
            errors.deep_view() == failures(all.take(it.index() as int)),
            skipped <= it.index(),
            transcoded <= it.index(),
            all.len() == total,
    {
        let ghost before = it.index() as int;
        let ghost reported = errors.deep_view();
        proof {
            let seen = all.take(before);
            assert(all.take(before + 1) =~= seen.push(all[before]));
            seen.lemma_filter_push(all[before], |r: ResultModel| r is Skipped);
            seen.lemma_filter_push(all[before], |r: ResultModel| r is Transcoded);
            all.lemma_filter_map_take_succ(|r: ResultModel| failure_of(r), before);
        }
        match result {
            TranscodeResult::Skipped => {
                skipped = skipped + 1;
            },
            TranscodeResult::Transcoded => {
                transcoded = transcoded + 1;
            },
            TranscodeResult::Error { path, error } => {
                errors.push(FileError { path, error });
                assert(errors.deep_view() =~= reported.push(
                    FailureModel { path: path@, error: error@ },
                ));
            },
        }
    }
    assert(all.take(all.len() as int) =~= all);
    TranscodeTally { skipped, transcoded, errors }
}

} // verus!

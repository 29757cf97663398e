//! What holds of the two phases taken as a whole, proved from the definitions
//! that the functions of [`crate::detect`] and [`crate::transcode`] are held to.

use vstd::prelude::*;
use vstd::utf8::*;

use crate::charset::{ascii_with_escape, label_known};
use crate::detect::{
    detect_encoding, detected_entries, detection_of, read_failures, DetectionOutcome,
    OutcomeModel,
};
use crate::label::is_canonical;
use crate::manifest::{EncodingEntry, EntryModel};
use crate::transcode::{
    failures, first_step, result_after_write, skipped_count, step_after_read, transcoded_count,
    unknown_encoding, ResultModel, StepModel,
};

verus! {

/// The result of taking an entry through all of its steps, where reading the
/// file brings `read` and writing it back, if it comes to that, brings `write`.
pub open spec fn transcode_result(
    entry: EntryModel,
    read: Result<Seq<u8>, Seq<char>>,
    write: Result<(), Seq<char>>,
) -> ResultModel {
    match first_step(entry) {
        StepModel::Done(result) => result,
        _ => match step_after_read(entry, read) {
            StepModel::Done(result) => result,
            _ => result_after_write(entry, write),
        },
    }
}

/// The bytes that an entry's steps ask to have written to its file, if they
/// ask for a write at all. Without a write the file keeps its bytes.
pub open spec fn bytes_to_write(entry: EntryModel, read: Result<Seq<u8>, Seq<char>>) -> Option<
    Seq<u8>,
> {
    match first_step(entry) {
        StepModel::ReadFile => match step_after_read(entry, read) {
            StepModel::WriteFile { bytes, .. } => Some(bytes),
            _ => None,
        },
        _ => None,
    }
}

/// An entry whose label names the canonical encoding is skipped, whatever the
/// case of the label and whatever a read or a write of its file would bring:
/// no step asks for the file, so its bytes stay as they are.
pub proof fn canonical_entry_is_left_alone(
    entry: EntryModel,
    read: Result<Seq<u8>, Seq<char>>,
    write: Result<(), Seq<char>>,
)
    requires
        is_canonical(entry.encoding),
    ensures
        first_step(entry) == StepModel::Done(ResultModel::Skipped),
        transcode_result(entry, read, write) == ResultModel::Skipped,
        bytes_to_write(entry, read) is None,
{
}

/// A file is read at most once and written at most once: the first step
/// never asks for a write, the step after the read never asks for another
/// read, and where it ends the entry instead of asking for the write, it ends
/// it in an error.
pub proof fn each_file_is_read_and_written_once(
    entry: EntryModel,
    read: Result<Seq<u8>, Seq<char>>,
)
    ensures
        !(first_step(entry) is WriteFile),
        !(step_after_read(entry, read) is ReadFile),
        step_after_read(entry, read) matches StepModel::Done(result) ==> result is Error,
        read is Err ==> step_after_read(entry, read) is Done,
{
}

/// Whatever is written back to a file is valid UTF-8: for every entry and
/// every content of its file, bytes that the steps hand out for writing are
/// the UTF-8 form of some text.
pub proof fn written_bytes_are_utf8(entry: EntryModel, read: Result<Seq<u8>, Seq<char>>)
    ensures
        bytes_to_write(entry, read) matches Some(bytes) ==> valid_utf8(bytes),
{
    broadcast use encode_utf8_valid_utf8;

}

/// The outcomes of detection over a list of files, the file at `paths[i]`
/// having brought `reads[i]` when it was read.
pub open spec fn detection_run(
    paths: Seq<Seq<char>>,
    reads: Seq<Result<Seq<u8>, Seq<char>>>,
) -> Seq<OutcomeModel>
    recommends
        paths.len() == reads.len(),
{
    Seq::new(paths.len(), |i: int| detection_of(paths[i], reads[i]))
}

/// How many of the reads failed.
pub open spec fn failed_reads(reads: Seq<Result<Seq<u8>, Seq<char>>>) -> nat {
    reads.filter(|read: Result<Seq<u8>, Seq<char>>| read is Err).len()
}

/// Every outcome of a detection run lands in exactly one of the two lists.
pub proof fn detection_drops_nothing(outcomes: Seq<OutcomeModel>)
    ensures
        detected_entries(outcomes).len() + read_failures(outcomes).len() == outcomes.len(),
    decreases outcomes.len(),
{
    if outcomes.len() > 0 {
        detection_drops_nothing(outcomes.drop_last());
    }
}

/// Unreadable files cost the run nothing but themselves: of `n` files of
/// which `k` cannot be read, detection records `n - k` entries and reports
/// `k` read failures.
pub proof fn detection_isolates_faults(
    paths: Seq<Seq<char>>,
    reads: Seq<Result<Seq<u8>, Seq<char>>>,
)
    requires
        paths.len() == reads.len(),
    ensures
        read_failures(detection_run(paths, reads)).len() == failed_reads(reads),
        detected_entries(detection_run(paths, reads)).len() == paths.len() - failed_reads(reads),
    decreases paths.len(),
{
    let outcomes = detection_run(paths, reads);
    detection_drops_nothing(outcomes);
    if paths.len() > 0 {
        detection_isolates_faults(paths.drop_last(), reads.drop_last());
        assert(detection_run(paths.drop_last(), reads.drop_last()) =~= outcomes.drop_last());
        assert(reads.drop_last().push(reads.last()) =~= reads);
        reads.drop_last().lemma_filter_push(
            reads.last(),
            |read: Result<Seq<u8>, Seq<char>>| read is Err,
        );
    } else {
        assert(reads.filter(|read: Result<Seq<u8>, Seq<char>>| read is Err).len() == 0) by {
            reads.lemma_filter_len(|read: Result<Seq<u8>, Seq<char>>| read is Err);
        }
    }
}

/// Every result of a transcoding run is counted exactly once.
pub proof fn tally_drops_nothing(results: Seq<ResultModel>)
    ensures
        skipped_count(results) + transcoded_count(results) + failures(results).len()
            == results.len(),
    decreases results.len(),
{
    if results.len() > 0 {
        let rest = results.drop_last();
        tally_drops_nothing(rest);
        assert(rest.push(results.last()) =~= results);
        rest.lemma_filter_push(results.last(), |result: ResultModel| result is Skipped);
        rest.lemma_filter_push(results.last(), |result: ResultModel| result is Transcoded);
    } else {
        results.lemma_filter_len(|result: ResultModel| result is Skipped);
        results.lemma_filter_len(|result: ResultModel| result is Transcoded);
    }
}

/// The entry is not canonical already, and its label names no known encoding.
pub open spec fn names_unknown_encoding(entry: EntryModel) -> bool {
    !is_canonical(entry.encoding) && !label_known(entry.encoding)
}

/// How many of the entries name an unknown encoding.
pub open spec fn unknown_encodings(entries: Seq<EntryModel>) -> nat {
    entries.filter(|entry: EntryModel| names_unknown_encoding(entry)).len()
}

/// The results of a transcoding run in which every read and every write
/// succeeds, the file of `entries[i]` holding `contents[i]`.
pub open spec fn transcoding_run(entries: Seq<EntryModel>, contents: Seq<Seq<u8>>) -> Seq<
    ResultModel,
>
    recommends
        entries.len() == contents.len(),
{
    Seq::new(entries.len(), |i: int| transcode_result(entries[i], Ok(contents[i]), Ok(())))
}

/// An unknown label costs the run nothing but its own entry: where the file
/// operations succeed and `j` of `n` entries name an unknown encoding, the run
/// reports exactly those `j` as errors, each with the label it could not
/// resolve, and skips or rewrites every one of the other `n - j`.
pub proof fn transcoding_isolates_unknown_labels(
    entries: Seq<EntryModel>,
    contents: Seq<Seq<u8>>,
)
    requires
        entries.len() == contents.len(),
    ensures
        failures(transcoding_run(entries, contents)).len() == unknown_encodings(entries),
        skipped_count(transcoding_run(entries, contents)) + transcoded_count(
            transcoding_run(entries, contents),
        ) == entries.len() - unknown_encodings(entries),
        forall|i: int|
            0 <= i < entries.len() ==> #[trigger] transcoding_run(entries, contents)[i] == (
            if names_unknown_encoding(entries[i]) {
                ResultModel::Error {
                    path: entries[i].path,
                    error: unknown_encoding(entries[i].encoding),
                }
            } else if is_canonical(entries[i].encoding) {
                ResultModel::Skipped
            } else {
                ResultModel::Transcoded
            }),
    decreases entries.len(),
{
    let results = transcoding_run(entries, contents);
    tally_drops_nothing(results);
    if entries.len() > 0 {
        let rest = entries.drop_last();
        transcoding_isolates_unknown_labels(rest, contents.drop_last());
        assert(transcoding_run(rest, contents.drop_last()) =~= results.drop_last());
        assert(rest.push(entries.last()) =~= entries);
        rest.lemma_filter_push(entries.last(), |entry: EntryModel| names_unknown_encoding(entry));
    } else {
        entries.lemma_filter_len(|entry: EntryModel| names_unknown_encoding(entry));
    }
}

/// The bytes of a file after a transcoding run in which its read and its
/// write succeed: what the steps asked to have written, or the old bytes
/// where they asked for no write.
pub open spec fn contents_after(entry: EntryModel, contents: Seq<u8>) -> Seq<u8> {
    match bytes_to_write(entry, Ok(contents)) {
        Some(bytes) => bytes,
        None => contents,
    }
}

/// Detect, transcode, detect again: the second detection finds UTF-8.
///
/// `first` is what detection makes of a file that holds `contents`, `entry`
/// the manifest entry that it records, and `second` what detection makes of
/// the file after a transcoding run in which the read and the write succeed.
/// The law holds of every file on which transcoding does its work: one that
/// the first detection took for UTF-8 already, and one whose label the
/// decoder knows, unless its rewritten bytes are all ASCII with an escape byte
/// in it, which the detector may take for ISO-2022-JP.
pub proof fn second_detection_finds_utf8(
    path: &str,
    contents: Vec<u8>,
    first: DetectionOutcome,
    entry: EncodingEntry,
    after: Vec<u8>,
    second: DetectionOutcome,
)
    requires
        call_ensures(detect_encoding, (path, Ok(contents)), first),
        first == DetectionOutcome::Detected(entry),
        after@ == contents_after(entry@, contents@),
        is_canonical(entry@.encoding) || (label_known(entry@.encoding) && !ascii_with_escape(
            after@,
        )),
        call_ensures(detect_encoding, (path, Ok(after)), second),
    ensures
        second matches DetectionOutcome::Detected(found) && found@.path == path@ && is_canonical(
            found@.encoding,
        ),
        second matches DetectionOutcome::Detected(found) && first_step(found@) == StepModel::Done(
            ResultModel::Skipped,
        ),
{
    if !is_canonical(entry@.encoding) {
        written_bytes_are_utf8(entry@, Ok(contents@));
    }
}

} // verus!

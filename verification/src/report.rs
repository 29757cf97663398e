//! The lines in which a run is summed up: the counts, and a bounded sample of
//! the failures, so that a large tree does not flood the output.

use vstd::prelude::*;
use vstd::string::*;

use crate::detect::DetectionReport;
use crate::manifest::{EncodingEntry, EntryModel, FailureModel, FileError};
use crate::transcode::TranscodeTally;

verus! {

/// How many failures a summary shows one by one.
pub const ERROR_SAMPLE: usize = 10;

/// The character of a decimal digit.
pub open spec fn digit(d: nat) -> char
    recommends
        d < 10,
{
    ('0' as u8 + d) as char
}

/// A number in decimal, without leading zeros.
pub open spec fn decimal(n: nat) -> Seq<char>
    decreases n,
{
    if n < 10 {
        seq![digit(n)]
    } else {
        decimal(n / 10).push(digit(n % 10))
    }
}

/// The number that a row of decimal digits stands for.
pub open spec fn numeral_value(digits: Seq<char>) -> nat
    decreases digits.len(),
{
    if digits.len() == 0 {
        0
    } else {
        (numeral_value(digits.drop_last()) * 10 + (digits.last() as nat - '0' as nat)) as nat
    }
}

/// The decimal form of a number is a row of digits that stands for that
/// number, and it begins with a zero only where the number is zero.
pub proof fn decimal_denotes(n: nat)
    ensures
        decimal(n).len() > 0,
        forall|i: int| 0 <= i < decimal(n).len() ==> '0' <= #[trigger] decimal(n)[i] <= '9',
        numeral_value(decimal(n)) == n,
        n > 0 ==> decimal(n)[0] != '0',
    decreases n,
{
    let last = if n < 10 {
        n
    } else {
        n % 10
    };
    assert(digit(last) as nat == '0' as nat + last);
    if n < 10 {
        assert(decimal(n).drop_last() =~= Seq::<char>::empty());
        assert(numeral_value(decimal(n).drop_last()) == 0);
    } else {
        decimal_denotes(n / 10);
        assert(decimal(n).drop_last() =~= decimal(n / 10));
    }
}

fn digit_text(d: usize) -> (text: &'static str)
    requires
        d < 10,
    ensures
        text@ == seq![digit(d as nat)],
{
    proof {
        reveal_strlit("0");
        reveal_strlit("1");
        reveal_strlit("2");
        reveal_strlit("3");
        reveal_strlit("4");
        reveal_strlit("5");
        reveal_strlit("6");
        reveal_strlit("7");
        reveal_strlit("8");
        reveal_strlit("9");
    }
    let text = match d {
        0 => "0",
        1 => "1",
        2 => "2",
        3 => "3",
        4 => "4",
        5 => "5",
        6 => "6",
        7 => "7",
        8 => "8",
        _ => "9",
    };
    assert(text@ =~= seq![digit(d as nat)]);
    text
}

/// Writes a count in decimal.
pub fn count_text(n: usize) -> (text: String)
    ensures
        text@ == decimal(n as nat),
    decreases n,
{
    if n < 10 {
        digit_text(n).to_owned()
    } else {
        let mut text = count_text(n / 10);
        text.append(digit_text(n % 10));
        text
    }
}

/// The line that shows one failure.
pub open spec fn failure_line(failure: FailureModel) -> Seq<char> {
    "  "@ + failure.path + " -> "@ + failure.error
}

/// The line that stands for the failures that are not shown.
pub open spec fn remainder_line(hidden: nat) -> Seq<char> {
    "  ... ("@ + decimal(hidden) + " more)"@
}

/// The sample of a list of failures: the first ten, one line each, and a last
/// line with the number of the others where there are more.
pub open spec fn sample_lines(failures: Seq<FailureModel>) -> Seq<Seq<char>> {
    if failures.len() <= ERROR_SAMPLE {
        failures.map_values(|failure: FailureModel| failure_line(failure))
    } else {
        failures.take(ERROR_SAMPLE as int).map_values(
            |failure: FailureModel| failure_line(failure),
        ).push(remainder_line((failures.len() - ERROR_SAMPLE) as nat))
    }
}

fn line_of(failure: &FileError) -> (line: String)
    ensures
        line@ == failure_line(failure@),
{
    let mut line = "  ".to_owned();
    line.append(failure.path.as_str());
    line.append(" -> ");
    line.append(failure.error.as_str());
    line
}

/// Lists a bounded sample of the failures of a run: the first ten in their
/// order, and the count of the rest where more than ten were met. However
/// many failures there are, no more than eleven lines come out.
pub fn sample_errors(errors: &Vec<FileError>) -> (lines: Vec<String>)
    ensures
        lines.deep_view() == sample_lines(errors.deep_view()),
        lines.len() <= ERROR_SAMPLE + 1,
{
    let ghost failures = errors.deep_view();
    let shown: usize = if errors.len() <= ERROR_SAMPLE {
        errors.len()
    } else {
        ERROR_SAMPLE
    };
    let mut lines: Vec<String> = Vec::new();
    let mut i: usize = 0;
    while i < shown
        invariant
            i <= shown <= errors.len(),
            failures == errors.deep_view(),
            lines.deep_view() == failures.take(i as int).map_values(
                |failure: FailureModel| failure_line(failure),
            ),
        decreases shown - i,
    {
        let ghost before = lines.deep_view();
        lines.push(line_of(&errors[i]));
        assert(lines.deep_view() =~= before.push(failure_line(failures[i as int])));
        assert(failures.take(i + 1).map_values(|failure: FailureModel| failure_line(failure))
            =~= before.push(failure_line(failures[i as int])));
        i = i + 1;
    }
    if errors.len() > ERROR_SAMPLE {
        let ghost before = lines.deep_view();
        let mut line = "  ... (".to_owned();
        line.append(count_text(errors.len() - ERROR_SAMPLE).as_str());
        line.append(" more)");
        lines.push(line);
        assert(lines.deep_view() =~= before.push(
            remainder_line((failures.len() - ERROR_SAMPLE) as nat),
        ));
    } else {
        assert(failures.take(failures.len() as int) =~= failures);
    }
    lines
}

/// The lines of a summary, those for standard output apart from those for
/// standard error.
#[derive(Clone, Debug, PartialEq, Eq)]
pub struct Summary {
    pub out: Vec<String>,
    pub err: Vec<String>,
}

/// What a [`Summary`] says.
pub struct SummaryModel {
    pub out: Seq<Seq<char>>,
    pub err: Seq<Seq<char>>,
}

impl DeepView for Summary {
    type V = SummaryModel;

    open spec fn deep_view(&self) -> SummaryModel {
        SummaryModel { out: self.out.deep_view(), err: self.err.deep_view() }
    }
}

impl View for Summary {
    type V = SummaryModel;

    open spec fn view(&self) -> SummaryModel {
        self.deep_view()
    }
}

/// A heading followed by the sample of the failures, or nothing at all where
/// there is no failure.
pub open spec fn failure_lines(heading: Seq<char>, failures: Seq<FailureModel>) -> Seq<Seq<char>> {
    if failures.len() == 0 {
        seq![]
    } else {
        seq![heading] + sample_lines(failures)
    }
}

/// The summary of a detection run that recorded `entries` entries and met
/// `failures`.
pub open spec fn detection_summary_of(entries: nat, failures: Seq<FailureModel>) -> SummaryModel {
    SummaryModel {
        out: seq!["Detected encodings for "@ + decimal(entries) + " files."@],
        err: failure_lines(
            "Encountered "@ + decimal(failures.len()) + " IO errors while reading subtitle files."@,
            failures,
        ),
    }
}

/// The summary of a transcoding run with these counts and `failures`.
pub open spec fn transcoding_summary_of(
    skipped: nat,
    transcoded: nat,
    failures: Seq<FailureModel>,
) -> SummaryModel {
    SummaryModel {
        out: seq![
            "\nTranscoding complete!"@,
            "  Transcoded: "@ + decimal(transcoded),
            "  Skipped (already UTF-8): "@ + decimal(skipped),
            "  Errors: "@ + decimal(failures.len()),
        ],
        err: failure_lines(
            "\nEncountered "@ + decimal(failures.len()) + " errors:"@,
            failures,
        ),
    }
}

fn counted(before: &str, n: usize, after: &str) -> (line: String)
    ensures
        line@ == before@ + decimal(n as nat) + after@,
{
    let mut line = before.to_owned();
    line.append(count_text(n).as_str());
    line.append(after);
    line
}

fn with_sample(heading: String, errors: &Vec<FileError>) -> (lines: Vec<String>)
    ensures
        lines.deep_view() == failure_lines(heading@, errors.deep_view()),
{
    let mut lines: Vec<String> = Vec::new();
    if errors.len() > 0 {
        lines.push(heading);
        let mut sample = sample_errors(errors);
        let ghost shown = sample.deep_view();
        lines.append(&mut sample);
        assert(lines.deep_view() =~= seq![heading@] + shown);
    }
    lines
}

/// Sums up a detection run: how many encodings were detected and, where
/// files could not be read, how many and a sample of them.
pub fn detection_summary(report: &DetectionReport) -> (summary: Summary)
    ensures
        summary@ == detection_summary_of(report.manifest@.len(), report.io_errors.deep_view()),
{
    let mut out: Vec<String> = Vec::new();
    out.push(counted("Detected encodings for ", report.manifest.encodings.len(), " files."));
    let heading = counted(
        "Encountered ",
        report.io_errors.len(),
        " IO errors while reading subtitle files.",
    );
    let err = with_sample(heading, &report.io_errors);
    let summary = Summary { out, err };
    assert(summary@.out =~= detection_summary_of(
        report.manifest@.len(),
        report.io_errors.deep_view(),
    ).out);
    summary
}

/// Sums up a transcoding run: the three counts and, where entries failed, a
/// sample of them.
pub fn transcoding_summary(tally: &TranscodeTally) -> (summary: Summary)
    ensures
        summary@ == transcoding_summary_of(
            tally.skipped as nat,
            tally.transcoded as nat,
            tally.errors.deep_view(),
        ),
{
    let mut out: Vec<String> = Vec::new();
    out.push("\nTranscoding complete!".to_owned());
    out.push(counted("  Transcoded: ", tally.transcoded, ""));
    out.push(counted("  Skipped (already UTF-8): ", tally.skipped, ""));
    out.push(counted("  Errors: ", tally.errors.len(), ""));
    let heading = counted("\nEncountered ", tally.errors.len(), " errors:");
    let err = with_sample(heading, &tally.errors);
    let summary = Summary { out, err };
    proof {
        reveal_strlit("");
        assert(""@ =~= Seq::<char>::empty());
        let expected = transcoding_summary_of(
            tally.skipped as nat,
            tally.transcoded as nat,
            tally.errors.deep_view(),
        );
        assert(summary@.out[1] =~= expected.out[1]);
        assert(summary@.out[2] =~= expected.out[2]);
        assert(summary@.out[3] =~= expected.out[3]);
        assert(summary@.out =~= expected.out);
    }
    summary
}

/// The warning for an entry whose file held malformed sequences.
pub open spec fn decode_warning_of(entry: EntryModel) -> Seq<char> {
    "Warning: "@ + entry.path + " had decoding errors with encoding "@ + entry.encoding
}

/// Words the warning for a file in which malformed sequences were replaced.
/// The file still counts as transcoded.
pub fn decode_warning(entry: &EncodingEntry) -> (line: String)
    ensures
        line@ == decode_warning_of(entry@),
{
    let mut line = "Warning: ".to_owned();
    line.append(entry.path.as_str());
    line.append(" had decoding errors with encoding ");
    line.append(entry.encoding.as_str());
    line
}

/// The notice for a run whose root directory does not exist.
pub open spec fn missing_root_notice_of(root: Seq<char>) -> Seq<char> {
    "Root directory "@ + root + " does not exist."@
}

/// Words the notice for a run whose root directory does not exist. Either
/// phase ends there, with nothing touched.
pub fn missing_root_notice(root: &str) -> (line: String)
    ensures
        line@ == missing_root_notice_of(root@),
{
    let mut line = "Root directory ".to_owned();
    line.append(root);
    line.append(" does not exist.");
    line
}

/// The notice for a transcoding run that finds no manifest at `path`.
pub open spec fn missing_manifest_notice_of(path: Seq<char>) -> Seq<Seq<char>> {
    seq![
        "encodings.json not found at "@ + path,
        "Please run with --detect first to generate the encodings file."@,
    ]
}

/// Words the notice for a transcoding run that finds no manifest: without
/// one no file is touched, and the operator is told to run detection first.
pub fn missing_manifest_notice(path: &str) -> (lines: Vec<String>)
    ensures
        lines.deep_view() == missing_manifest_notice_of(path@),
{
    let mut first = "encodings.json not found at ".to_owned();
    first.append(path);
    let mut lines: Vec<String> = Vec::new();
    lines.push(first);
    lines.push("Please run with --detect first to generate the encodings file.".to_owned());
    assert(lines.deep_view() =~= missing_manifest_notice_of(path@));
    lines
}

} // verus!

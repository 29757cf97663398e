use subtitle_processor::detect::DetectionReport;
use subtitle_processor::manifest::{EncodingEntry, EncodingResult, FileError};
use subtitle_processor::report::{
    count_text, decode_warning, detection_summary, missing_manifest_notice, missing_root_notice,
    sample_errors, transcoding_summary, Summary, ERROR_SAMPLE,
};
use subtitle_processor::transcode::TranscodeTally;

fn errors(n: usize) -> Vec<FileError> {
    (0..n).map(|i| FileError { path: format!("f{}.srt", i), error: format!("e{}", i) }).collect()
}

#[test]
fn counts_are_written_in_decimal() {
    assert_eq!(count_text(0), "0");
    assert_eq!(count_text(7), "7");
    assert_eq!(count_text(10), "10");
    assert_eq!(count_text(109), "109");
    assert_eq!(count_text(4096), "4096");
    assert_eq!(count_text(usize::MAX), usize::MAX.to_string());
}

#[test]
fn few_errors_are_all_shown() {
    assert_eq!(sample_errors(&errors(0)), Vec::<String>::new());
    assert_eq!(sample_errors(&errors(2)), vec!["  f0.srt -> e0", "  f1.srt -> e1"]);
    let ten = sample_errors(&errors(10));
    assert_eq!(ten.len(), 10);
    assert_eq!(ten[9], "  f9.srt -> e9");
}

#[test]
fn more_than_ten_errors_are_sampled() {
    assert_eq!(ERROR_SAMPLE, 10);
    let eleven = sample_errors(&errors(11));
    assert_eq!(eleven.len(), 11);
    assert_eq!(eleven[9], "  f9.srt -> e9");
    assert_eq!(eleven[10], "  ... (1 more)");
    let many = sample_errors(&errors(135));
    assert_eq!(many.len(), 11);
    assert_eq!(many[0], "  f0.srt -> e0");
    assert_eq!(many[10], "  ... (125 more)");
}

#[test]
fn detection_summary_without_errors() {
    let report = DetectionReport {
        manifest: EncodingResult {
            encodings: vec![
                EncodingEntry { path: "a.srt".to_string(), encoding: "UTF-8".to_string() },
                EncodingEntry { path: "b.srt".to_string(), encoding: "GBK".to_string() },
            ],
        },
        io_errors: Vec::new(),
    };
    assert_eq!(
        detection_summary(&report),
        Summary { out: vec!["Detected encodings for 2 files.".to_string()], err: Vec::new() }
    );
}

#[test]
fn detection_summary_with_errors() {
    let report =
        DetectionReport { manifest: EncodingResult { encodings: Vec::new() }, io_errors: errors(12) };
    let summary = detection_summary(&report);
    assert_eq!(summary.out, vec!["Detected encodings for 0 files."]);
    assert_eq!(summary.err.len(), 12);
    assert_eq!(summary.err[0], "Encountered 12 IO errors while reading subtitle files.");
    assert_eq!(summary.err[1], "  f0.srt -> e0");
    assert_eq!(summary.err[11], "  ... (2 more)");
}

#[test]
fn transcoding_summary_without_errors() {
    let tally = TranscodeTally { skipped: 1, transcoded: 1, errors: Vec::new() };
    assert_eq!(
        transcoding_summary(&tally),
        Summary {
            out: vec![
                "\nTranscoding complete!".to_string(),
                "  Transcoded: 1".to_string(),
                "  Skipped (already UTF-8): 1".to_string(),
                "  Errors: 0".to_string(),
            ],
            err: Vec::new(),
        }
    );
}

#[test]
fn transcoding_summary_with_errors() {
    let tally = TranscodeTally { skipped: 30, transcoded: 1200, errors: errors(1) };
    let summary = transcoding_summary(&tally);
    assert_eq!(
        summary.out,
        vec![
            "\nTranscoding complete!",
            "  Transcoded: 1200",
            "  Skipped (already UTF-8): 30",
            "  Errors: 1",
        ]
    );
    assert_eq!(summary.err, vec!["\nEncountered 1 errors:", "  f0.srt -> e0"]);
}

#[test]
fn warning_names_the_file_and_the_label() {
    let entry = EncodingEntry { path: "d.srt".to_string(), encoding: "Shift_JIS".to_string() };
    assert_eq!(
        decode_warning(&entry),
        "Warning: d.srt had decoding errors with encoding Shift_JIS"
    );
}

#[test]
fn missing_manifest_tells_to_detect_first() {
    assert_eq!(
        missing_manifest_notice("subtitle-backup/encodings.json"),
        vec![
            "encodings.json not found at subtitle-backup/encodings.json",
            "Please run with --detect first to generate the encodings file.",
        ]
    );
}

#[test]
fn missing_root_is_named() {
    assert_eq!(
        missing_root_notice("subtitle-backup"),
        "Root directory subtitle-backup does not exist."
    );
}

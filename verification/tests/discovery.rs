use subtitle_processor::discovery::{
    collect_subtitle_files, is_subtitle_extension, search_pattern, FoundPath,
};
use subtitle_processor::label::{eq_ignore_ascii_case, is_utf8_label, CANONICAL_LABEL};
use subtitle_processor::manifest::{EncodingEntry, MANIFEST_FILE};

fn found(path: &str, is_file: bool, extension: Option<&str>) -> FoundPath {
    FoundPath { path: path.to_string(), is_file, extension: extension.map(|e| e.to_string()) }
}

#[test]
fn subtitle_extensions_are_known_in_any_case() {
    for extension in ["srt", "ass", "ssa", "sub", "sup", "SRT", "Ass", "sSa", "SUB", "suP"] {
        assert!(is_subtitle_extension(extension), "{}", extension);
    }
}

#[test]
fn other_extensions_are_not() {
    for extension in ["", "txt", "sr", "srtx", "srt ", ".srt", "json", "sųb", "ſrt", "vtt"] {
        assert!(!is_subtitle_extension(extension), "{}", extension);
    }
}

#[test]
fn only_files_with_a_subtitle_extension_are_kept() {
    let files = collect_subtitle_files(vec![
        found("root/a.srt", true, Some("srt")),
        found("root/dir.srt", false, Some("srt")),
        found("root/notes.txt", true, Some("txt")),
        found("root/sub/B.ASS", true, Some("ASS")),
        found("root/README", true, None),
        found("root/sub", false, None),
        found("root/sub/c.Sup", true, Some("Sup")),
        found("root/encodings.json", true, Some("json")),
    ]);
    assert_eq!(files, vec!["root/a.srt", "root/sub/B.ASS", "root/sub/c.Sup"]);
}

#[test]
fn nothing_found_gives_no_files() {
    assert!(collect_subtitle_files(Vec::new()).is_empty());
}

#[test]
fn candidate_test_agrees_with_the_collection() {
    assert!(found("a.sub", true, Some("sub")).is_subtitle_file());
    assert!(!found("a.sub", false, Some("sub")).is_subtitle_file());
    assert!(!found("a", true, None).is_subtitle_file());
    assert!(!found("a.mkv", true, Some("mkv")).is_subtitle_file());
}

#[test]
fn pattern_reaches_every_depth() {
    assert_eq!(search_pattern("subtitle-backup", '/'), "subtitle-backup/**/*");
    assert_eq!(search_pattern("/data/subs", '/'), "/data/subs/**/*");
}

#[test]
fn trailing_separators_are_dropped_from_the_pattern() {
    assert_eq!(search_pattern("subs/", '/'), "subs/**/*");
    assert_eq!(search_pattern("subs///", '/'), "subs/**/*");
    assert_eq!(search_pattern("a/b/", '/'), "a/b/**/*");
    assert_eq!(search_pattern("/", '/'), "/**/*");
    assert_eq!(search_pattern("", '/'), "/**/*");
    assert_eq!(search_pattern("C:\\subs\\", '\\'), "C:\\subs/**/*");
    assert_eq!(search_pattern("subs/", '\\'), "subs//**/*");
    assert_eq!(search_pattern("фильмы/", '/'), "фильмы/**/*");
}

#[test]
fn labels_compare_without_regard_to_ascii_case() {
    assert!(eq_ignore_ascii_case("Windows-1251", "windows-1251"));
    assert!(eq_ignore_ascii_case("", ""));
    assert!(eq_ignore_ascii_case("ÄB", "Äb"));
    assert!(!eq_ignore_ascii_case("Ä", "ä"));
    assert!(!eq_ignore_ascii_case("utf-8", "utf-8 "));
    assert!(!eq_ignore_ascii_case("utf-8", "utf_8"));
    assert!(!eq_ignore_ascii_case("@", "`"));
    assert!(!eq_ignore_ascii_case("[", "{"));
}

#[test]
fn canonical_label_is_utf8() {
    assert_eq!(CANONICAL_LABEL, "UTF-8");
    assert!(is_utf8_label("UTF-8"));
    assert!(is_utf8_label("utf-8"));
    assert!(!is_utf8_label("utf8"));
    assert!(!is_utf8_label("UTF-16"));
    assert!(!is_utf8_label(""));
}

#[test]
fn entry_holds_what_it_was_made_with() {
    let entry = EncodingEntry::new("dir/a.srt", "windows-1251");
    assert_eq!(
        entry,
        EncodingEntry { path: "dir/a.srt".to_string(), encoding: "windows-1251".to_string() }
    );
    assert_eq!(MANIFEST_FILE, "encodings.json");
}

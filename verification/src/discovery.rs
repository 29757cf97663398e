//! Which of the paths found under a root are candidate subtitle files, and
//! the pattern by which the tree under a root is searched.

use vstd::prelude::*;
use vstd::string::*;

use crate::label::{eq_ignore_ascii_case, eq_ignoring_ascii_case};

verus! {

/// The extensions of the subtitle formats, in small letters.
pub open spec fn subtitle_extensions() -> Seq<Seq<char>> {
    seq![
        seq!['s', 'r', 't'],
        seq!['a', 's', 's'],
        seq!['s', 's', 'a'],
        seq!['s', 'u', 'b'],
        seq!['s', 'u', 'p'],
    ]
}

/// The extension is that of a subtitle format, in whatever case it is written.
pub open spec fn names_subtitle_format(extension: Seq<char>) -> bool {
    exists|k: int|
        0 <= k < subtitle_extensions().len() && eq_ignoring_ascii_case(
            extension,
            #[trigger] subtitle_extensions()[k],
        )
}

/// Tells whether a file extension, given without its dot, is that of a
/// subtitle format.
pub fn is_subtitle_extension(extension: &str) -> (known: bool)
    ensures
        known == names_subtitle_format(extension@),
{
    proof {
        reveal_strlit("srt");
        reveal_strlit("ass");
        reveal_strlit("ssa");
        reveal_strlit("sub");
        reveal_strlit("sup");
        assert("srt"@ =~= subtitle_extensions()[0]);
        assert("ass"@ =~= subtitle_extensions()[1]);
        assert("ssa"@ =~= subtitle_extensions()[2]);
        assert("sub"@ =~= subtitle_extensions()[3]);
        assert("sup"@ =~= subtitle_extensions()[4]);
    }
    eq_ignore_ascii_case(extension, "srt") || eq_ignore_ascii_case(extension, "ass")
        || eq_ignore_ascii_case(extension, "ssa") || eq_ignore_ascii_case(extension, "sub")
        || eq_ignore_ascii_case(extension, "sup")
}

/// One path that the search under a root came upon.
#[derive(Clone, Debug, PartialEq, Eq)]
pub struct FoundPath {
    pub path: String,
    /// The path leads to a regular file.
    pub is_file: bool,
    /// The extension of the last component, without its dot, if it has one.
    pub extension: Option<String>,
}

/// What a [`FoundPath`] says.
pub struct FoundModel {
    pub path: Seq<char>,
    pub is_file: bool,
    pub extension: Option<Seq<char>>,
}

impl DeepView for FoundPath {
    type V = FoundModel;

    open spec fn deep_view(&self) -> FoundModel {
        FoundModel {
            path: self.path@,
            is_file: self.is_file,
            extension: match self.extension {
                Some(extension) => Some(extension@),
                None => None,
            },
        }
    }
}

impl View for FoundPath {
    type V = FoundModel;

    open spec fn view(&self) -> FoundModel {
        self.deep_view()
    }
}

/// The path is a candidate: a regular file with the extension of a subtitle
/// format.
pub open spec fn is_candidate(found: FoundModel) -> bool {
    &&& found.is_file
    &&& found.extension matches Some(extension) && names_subtitle_format(extension)
}

/// The path of a found item if it is a candidate.
pub open spec fn candidate_path(found: FoundModel) -> Option<Seq<char>> {
    if is_candidate(found) {
        Some(found.path)
    } else {
        None
    }
}

/// The paths of the candidates among what was found, in their order.
pub open spec fn candidate_paths(found: Seq<FoundModel>) -> Seq<Seq<char>> {
    found.filter_map(|item: FoundModel| candidate_path(item))
}

impl FoundPath {
    /// Tells whether the path is a candidate subtitle file.
    pub fn is_subtitle_file(&self) -> (candidate: bool)
        ensures
            candidate == is_candidate(self@),
    {
        self.is_file && match &self.extension {
            Some(extension) => is_subtitle_extension(extension.as_str()),
            None => false,
        }
    }
}

/// Keeps the candidate subtitle files of what was found under a root: the
/// regular files whose extension is that of a subtitle format. The paths come
/// out in the order in which they were found.
pub fn collect_subtitle_files(found: Vec<FoundPath>) -> (files: Vec<String>)
    ensures
        files.deep_view() == candidate_paths(found.deep_view()),
{
    let ghost all = found.deep_view();
    let mut files: Vec<String> = Vec::new();
    for item in it: found.into_iter()
        invariant
            it.seq().len() == all.len(),
            forall|k: int| 0 <= k < all.len() ==> (#[trigger] it.seq()[k]).deep_view() == all[k],
            files.deep_view() == candidate_paths(all.take(it.index() as int)),
    {
        let ghost kept = files.deep_view();
        proof {
            all.lemma_filter_map_take_succ(
                |found: FoundModel| candidate_path(found),
                it.index() as int,
            );
        }
        if item.is_subtitle_file() {
            files.push(item.path);
            assert(files.deep_view() =~= kept.push(item.path@));
        }
    }
    assert(all.take(all.len() as int) =~= all);
    files
}

/// The text without the separators that it ends in.
pub open spec fn without_trailing(text: Seq<char>, separator: char) -> Seq<char>
    decreases text.len(),
{
    if text.len() > 0 && text.last() == separator {
        without_trailing(text.drop_last(), separator)
    } else {
        text
    }
}

/// The pattern that matches every path below `root`.
pub open spec fn pattern_under(root: Seq<char>, separator: char) -> Seq<char> {
    without_trailing(root, separator) + seq!['/', '*', '*', '/', '*']
}

/// Builds the pattern by which everything below `root` is found, at any
/// depth. Path separators at the end of `root` are dropped first, so that the
/// pattern holds no doubled separator.
pub fn search_pattern(root: &str, separator: char) -> (pattern: String)
    ensures
        pattern@ == pattern_under(root@, separator),
{
    let mut end: usize = root.unicode_len();
    assert(root@.take(end as int) =~= root@);
    while end > 0 && root.get_char(end - 1) == separator
        invariant
            end <= root@.len(),
            without_trailing(root@, separator) == without_trailing(
                root@.take(end as int),
                separator,
            ),
        decreases end,
    {
        assert(root@.take(end as int).drop_last() =~= root@.take(end - 1));
        end = end - 1;
    }
    proof {
        reveal_strlit("/**/*");
        assert("/**/*"@ =~= seq!['/', '*', '*', '/', '*']);
    }
    let mut pattern = root.substring_char(0, end).to_owned();
    pattern.append("/**/*");
    pattern
}

} // verus!

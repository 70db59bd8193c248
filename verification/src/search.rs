//! Searching the text files of a directory for a keyword. Walking the
//! directory and reading the files is the caller's part; what is searched,
//! what is skipped and what a hit looks like is decided here.

use vstd::prelude::*;
use vstd::string::*;
use crate::pattern::{pattern_for, regex_build_error, regex_is_match, search_pattern, LineMatcher};
use crate::text::{contains, decimal, decimal_text, occurs_in, trim, trimmed};

verus! {

/// How many bytes at the start of a file are looked at to tell whether it
/// is binary.
pub const BINARY_PROBE_LEN: usize = 1024;

/// How a search is to be carried out.
#[derive(Clone, Debug, PartialEq, Eq)]
pub struct SearchConfig {
    pub case_sensitive: bool,
    pub whole_word: bool,
    pub is_regex: bool,
    /// The directory to search, as a rule the workspace that is open.
    pub target_dir: String,
}

/// The hits in one file.
#[derive(Clone, Debug, PartialEq, Eq)]
pub struct SearchResult {
    pub path: String,
    /// One entry for each line with a hit: the line's number, counted from
    /// 1, a colon, a space and the line without surrounding whitespace.
    pub result: Vec<String>,
}

/// The hits in one file as a plain value.
pub struct SearchResultView {
    pub path: Seq<char>,
    pub result: Seq<Seq<char>>,
}

/// The texts of a sequence of strings.
pub open spec fn texts(strings: Seq<String>) -> Seq<Seq<char>> {
    Seq::new(strings.len(), |i: int| strings[i]@)
}

impl View for SearchResult {
    type V = SearchResultView;

    open spec fn view(&self) -> SearchResultView {
        SearchResultView { path: self.path@, result: texts(self.result@) }
    }
}

/// The plain values of a sequence of results.
pub open spec fn views(results: Seq<SearchResult>) -> Seq<SearchResultView> {
    Seq::new(results.len(), |i: int| results[i]@)
}

/// What was read of one regular file under the target directory.
#[derive(Clone, Debug, PartialEq, Eq)]
pub struct FileSnapshot {
    /// The file's path, as text.
    pub path: String,
    /// What one read at the start of the file gave, or `None` where the
    /// file could not be opened or read.
    pub head: Option<Vec<u8>>,
    /// The file's lines without their terminators, or `None` where the file
    /// could not be opened. A line that could not be read as text is `None`
    /// and still counts in the numbering.
    pub lines: Option<Vec<Option<String>>>,
}

/// Whether a path is left out of every search: one that names a directory
/// of dependencies, of version control or of build output.
pub open spec fn ignored(path: Seq<char>) -> bool {
    occurs_in("node_modules"@, path) || occurs_in(".git"@, path) || occurs_in("target"@, path)
}

/// Whether a zero byte stands among the bytes of `head` that are looked at.
pub open spec fn has_zero_byte(head: Seq<u8>) -> bool {
    exists|i: int| 0 <= i < head.len() && i < BINARY_PROBE_LEN && #[trigger] head[i] == 0
}

/// Whether a file counts as binary: one that could not be read does, so
/// that it is skipped.
pub open spec fn binary(head: Option<Vec<u8>>) -> bool {
    match head {
        Some(bytes) => has_zero_byte(bytes@),
        None => true,
    }
}

/// The entry for a hit in the line with the number `number`, whose text
/// without surrounding whitespace is `inner`.
pub open spec fn hit_text(number: nat, inner: Seq<char>) -> Seq<char> {
    decimal(number) + ": "@ + inner
}

/// The entries for the hits among `lines`, in the order of the lines. The
/// lines are numbered from 1, and a line that could not be read has a
/// number like any other.
pub open spec fn hits(pattern: Seq<char>, case_insensitive: bool, lines: Seq<Option<String>>)
    -> Seq<Seq<char>>
    decreases lines.len(),
{
    if lines.len() == 0 {
        Seq::empty()
    } else {
        let before = hits(pattern, case_insensitive, lines.drop_last());
        match lines.last() {
            Some(line) if regex_is_match(pattern, case_insensitive, line@) => before.push(
                hit_text(lines.len(), trimmed(line@)),
            ),
            _ => before,
        }
    }
}

/// The result for one file, if it has one: none for a path that is left
/// out, for a binary or unreadable file, and for a file without a hit.
pub open spec fn scan_outcome(pattern: Seq<char>, case_insensitive: bool, file: FileSnapshot)
    -> Option<SearchResultView> {
    if ignored(file.path@) || binary(file.head) {
        None
    } else {
        match file.lines {
            Some(lines) if hits(pattern, case_insensitive, lines@).len() > 0 => Some(
                SearchResultView {
                    path: file.path@,
                    result: hits(pattern, case_insensitive, lines@),
                },
            ),
            _ => None,
        }
    }
}

/// The results for `files`, in the order of the files.
pub open spec fn results_of(pattern: Seq<char>, case_insensitive: bool, files: Seq<FileSnapshot>)
    -> Seq<SearchResultView>
    decreases files.len(),
{
    if files.len() == 0 {
        Seq::empty()
    } else {
        let before = results_of(pattern, case_insensitive, files.drop_last());
        match scan_outcome(pattern, case_insensitive, files.last()) {
            Some(result) => before.push(result),
            None => before,
        }
    }
}

/// The pattern that a search for `keyword` under `config` compiles.
pub open spec fn config_pattern(keyword: Seq<char>, config: SearchConfig) -> Seq<char> {
    pattern_for(keyword, config.is_regex, config.whole_word)
}

/// The message with which a search for `keyword` under `config` is
/// refused, if it is: an empty keyword is never refused, any other keyword
/// exactly when its pattern does not compile.
pub open spec fn search_error(keyword: Seq<char>, config: SearchConfig) -> Option<Seq<char>> {
    if keyword.len() == 0 {
        None
    } else {
        match regex_build_error(config_pattern(keyword, config), !config.case_sensitive) {
            Some(reason) => Some("Invalid regex: "@ + reason),
            None => None,
        }
    }
}

/// Tells whether a path is left out of every search.
pub fn is_ignored_path(path: &str) -> (skip: bool)
    ensures
        skip == ignored(path@),
{
    contains(path, "node_modules") || contains(path, ".git") || contains(path, "target")
}

/// Tells whether a file counts as binary by the start of its content: it
/// does if a zero byte stands among the first `BINARY_PROBE_LEN` bytes, or
/// if nothing could be read.
pub fn is_binary_file(head: &Option<Vec<u8>>) -> (skip: bool)
    ensures
        skip == binary(*head),
{
    match head {
        None => true,
        Some(bytes) => {
            let mut i: usize = 0;
            while i < bytes.len() && i < BINARY_PROBE_LEN
                invariant
                    *head == Some(*bytes),
                    i <= bytes.len(),
                    i <= BINARY_PROBE_LEN,
                    forall|j: int| 0 <= j < i ==> bytes@[j] != 0,
                decreases bytes.len() - i,
            {
                if bytes[i] == 0 {
                    assert(bytes@[i as int] == 0);
                    return true;
                }
                i += 1;
            }
            false
        },
    }
}

/// Writes the entry for a hit: the line's number, a colon, a space and the
/// line's text without surrounding whitespace.
pub fn hit_line(number: usize, inner: &str) -> (entry: String)
    ensures
        entry@ == hit_text(number as nat, inner@),
{
    decimal_text(number).concat(": ").concat(inner)
}

/// Collects the entries for the lines of one file that the matcher hits.
pub fn matching_lines(matcher: &LineMatcher, lines: &Vec<Option<String>>) -> (found: Vec<String>)
    ensures
        texts(found@) == hits(matcher.pattern(), matcher.case_insensitive(), lines@),
{
    let mut found: Vec<String> = Vec::new();
    let mut i: usize = 0;
    assert(lines@.take(0) =~= Seq::empty());
    assert(texts(found@) =~= Seq::empty());
    while i < lines.len()
        invariant
            i <= lines.len(),
            texts(found@) == hits(
                matcher.pattern(),
                matcher.case_insensitive(),
                lines@.take(i as int),
            ),
        decreases lines.len() - i,
    {
        let ghost before = found@;
        assert(lines@.take(i + 1).drop_last() =~= lines@.take(i as int));
        assert(lines@.take(i + 1).last() == lines@[i as int]);
        match &lines[i] {
            Some(line) => {
                if matcher.is_match(line.as_str()) {
                    let entry = hit_line(i + 1, trim(line.as_str()));
                    found.push(entry);
                    assert(texts(found@) =~= texts(before).push(entry@));
                }
            },
            None => {},
        }
        i += 1;
    }
    assert(lines@.take(i as int) =~= lines@);
    found
}

/// Searches one file: gives its result if the file is searched at all and
/// has a hit.
pub fn scan_file(matcher: &LineMatcher, file: &FileSnapshot) -> (result: Option<SearchResult>)
    ensures
        match result {
            Some(found) => Some(found@),
            None => None,
        } == scan_outcome(matcher.pattern(), matcher.case_insensitive(), *file),
{
    if is_ignored_path(file.path.as_str()) || is_binary_file(&file.head) {
        return None;
    }
    match &file.lines {
        Some(lines) => {
            let found = matching_lines(matcher, lines);
            if found.len() > 0 {
                Some(SearchResult { path: file.path.clone(), result: found })
            } else {
                None
            }
        },
        None => None,
    }
}

/// Prepares a search: nothing is to be searched for an empty keyword, and a
/// keyword whose pattern does not compile is refused with the reason.
pub fn prepare_search(keyword: &str, config: &SearchConfig) -> (prepared: Result<
    Option<LineMatcher>,
    String,
>)
    ensures
        match prepared {
            Ok(None) => keyword@.len() == 0,
            Ok(Some(matcher)) => keyword@.len() > 0 && search_error(keyword@, *config) is None
                && matcher.pattern() == config_pattern(keyword@, *config)
                && matcher.case_insensitive() == !config.case_sensitive,
            Err(message) => search_error(keyword@, *config) == Some(message@),
        },
{
    if keyword.is_empty() {
        return Ok(None);
    }
    let pattern = search_pattern(keyword, config.is_regex, config.whole_word);
    match LineMatcher::compile(pattern, !config.case_sensitive) {
        Ok(matcher) => Ok(Some(matcher)),
        Err(reason) => Err(String::from_str("Invalid regex: ").concat(reason.as_str())),
    }
}

/// Searches `files` for `keyword`: one result for each file that is
/// searched and has a hit, in the order of `files`. An empty keyword finds
/// nothing, and a keyword whose pattern does not compile is an error,
/// whatever the files hold.
pub fn search_in_files(keyword: &str, config: &SearchConfig, files: &Vec<FileSnapshot>) -> (found:
    Result<Vec<SearchResult>, String>)
    ensures
        match found {
            Ok(results) => search_error(keyword@, *config) is None && if keyword@.len() == 0 {
                results@.len() == 0
            } else {
                views(results@) == results_of(
                    config_pattern(keyword@, *config),
                    !config.case_sensitive,
                    files@,
                )
            },
            Err(message) => search_error(keyword@, *config) == Some(message@),
        },
{
    let matcher = match prepare_search(keyword, config) {
        Ok(Some(matcher)) => matcher,
        Ok(None) => {
            return Ok(Vec::new());
        },
        Err(message) => {
            return Err(message);
        },
    };
    let ghost pattern = matcher.pattern();
    let ghost folded = matcher.case_insensitive();
    let mut results: Vec<SearchResult> = Vec::new();
    let mut i: usize = 0;
    assert(files@.take(0) =~= Seq::empty());
    assert(views(results@) =~= Seq::empty());
    while i < files.len()
        invariant
            i <= files.len(),
            pattern == matcher.pattern(),
            folded == matcher.case_insensitive(),
            views(results@) == results_of(pattern, folded, files@.take(i as int)),
        decreases files.len() - i,
    {
        let ghost before = results@;
        assert(files@.take(i + 1).drop_last() =~= files@.take(i as int));
        assert(files@.take(i + 1).last() == files@[i as int]);
        match scan_file(&matcher, &files[i]) {
            Some(result) => {
                results.push(result);
                assert(views(results@) =~= views(before).push(result@));
            },
            None => {},
        }
        i += 1;
    }
    assert(files@.take(i as int) =~= files@);
    Ok(results)
}

} // verus!

//! Filtering a Git diff: lock files and user patterns are left out of what
//! the model sees.
use vstd::prelude::*;

use crate::config::settings::{strings_view, CommitConfig};
use crate::text::{chars_of, contains, contains_seq, str_eq, string_of_range};

verus! {

/// The index of the last slash in `p`, or -1.
pub open spec fn last_slash(p: Seq<char>) -> int
    decreases p.len(),
{
    if p.len() == 0 {
        -1
    } else if p.last() == '/' {
        p.len() - 1
    } else {
        last_slash(p.drop_last())
    }
}

/// What `Path::file_name` gives on Unix: the last component of the path,
/// where repeated and trailing slashes and `.` components do not count, unless
/// that component is `..` or there is none.
pub open spec fn spec_file_name(p: Seq<char>) -> Option<Seq<char>>
    decreases p.len(),
{
    if p.len() == 0 {
        None
    } else if p.last() == '/' {
        spec_file_name(p.drop_last())
    } else {
        proof {
            lemma_last_slash(p);
        }
        let k = last_slash(p);
        let seg = p.subrange(k + 1, p.len() as int);
        if seg == "."@ {
            spec_file_name(p.subrange(0, k + 1))
        } else if seg == ".."@ {
            None
        } else {
            Some(seg)
        }
    }
}

/// The lock files that are left out of the diff.
pub open spec fn spec_lock_files() -> Seq<Seq<char>> {
    seq![
        "Cargo.lock"@,
        "bun.lock"@,
        "bun.lockb"@,
        "package-lock.json"@,
        "yarn.lock"@,
        "pnpm-lock.yaml"@,
        "poetry.lock"@,
        "Pipfile.lock"@,
        "composer.lock"@,
        "Gemfile.lock"@,
        "go.sum"@,
    ]
}

/// A path is a lock file when its file name is one of [`spec_lock_files`].
pub open spec fn spec_is_lock_file(path: Seq<char>) -> bool {
    match spec_file_name(path) {
        Some(n) => spec_lock_files().contains(n),
        None => false,
    }
}

/// A path matches the custom patterns when one of them occurs in it.
pub open spec fn spec_matches_patterns(path: Seq<char>, patterns: Seq<Seq<char>>) -> bool {
    exists|i: int| 0 <= i < patterns.len() && contains_seq(path, #[trigger] patterns[i])
}

/// The last slash of a path: its index, or -1, with no slash after it.
pub proof fn lemma_last_slash(p: Seq<char>)
    ensures
        -1 <= last_slash(p) < p.len(),
        last_slash(p) >= 0 ==> p[last_slash(p)] == '/',
        forall|j: int| last_slash(p) < j < p.len() ==> p[j] != '/',
    decreases p.len(),
{
    if p.len() > 0 && p.last() != '/' {
        lemma_last_slash(p.drop_last());
        assert forall|j: int| last_slash(p) < j < p.len() implies p[j] != '/' by {
            if j < p.len() - 1 {
                assert(p.drop_last()[j] == p[j]);
            }
        }
    }
}

/// The index of the last slash in `v[..end]`, or `None`.
fn find_last_slash(v: &Vec<char>, end: usize) -> (r: Option<usize>)
    requires
        end <= v.len(),
    ensures
        match r {
            Some(k) => last_slash(v@.take(end as int)) == k as int,
            None => last_slash(v@.take(end as int)) == -1,
        },
{
    let mut j: usize = end;
    while j > 0
        invariant
            j <= end <= v.len(),
            last_slash(v@.take(end as int)) == last_slash(v@.take(j as int)),
        decreases j,
    {
        if v[j - 1] == '/' {
            return Some(j - 1);
        }
        assert(v@.take(j as int).drop_last() =~= v@.take(j - 1));
        j = j - 1;
    }
    None
}

/// The file name of a path, as `Path::file_name` gives it on Unix.
pub fn file_name(path: &str) -> (r: Option<String>)
    ensures
        opt_seq(r) == spec_file_name(path@),
{
    let v = chars_of(path);
    let mut end: usize = v.len();
    assert(v@.take(end as int) =~= v@);
    loop
        invariant
            end <= v.len(),
            v@ == path@,
            spec_file_name(path@) == spec_file_name(v@.take(end as int)),
        decreases end,
    {
        let ghost p = v@.take(end as int);
        if end == 0 {
            return None;
        }
        if v[end - 1] == '/' {
            assert(p.drop_last() =~= v@.take(end - 1));
            end = end - 1;
        } else {
            proof {
                lemma_last_slash(p);
            }
            let start = match find_last_slash(&v, end) {
                Some(k) => k + 1,
                None => 0,
            };
            let seg = string_of_range(&v, start, end);
            assert(seg@ =~= p.subrange(last_slash(p) + 1, p.len() as int));
            proof {
                reveal_strlit(".");
                reveal_strlit("..");
            }
            if str_eq(seg.as_str(), ".") {
                assert(p.subrange(0, last_slash(p) + 1) =~= v@.take(start as int));
                end = start;
            } else if str_eq(seg.as_str(), "..") {
                return None;
            } else {
                return Some(seg);
            }
        }
    }
}

/// The view of an optional string.
pub open spec fn opt_seq(o: Option<String>) -> Option<Seq<char>> {
    match o {
        Some(s) => Some(s@),
        None => None,
    }
}

/// Whether the path names a lock file (by its file name).
pub fn should_ignore_file(path: &str) -> (r: bool)
    ensures
        r == spec_is_lock_file(path@),
{
    let name = match file_name(path) {
        Some(n) => n,
        None => {
            return false;
        },
    };
    let ignored_files = vec![
        "Cargo.lock",
        "bun.lock",
        "bun.lockb",
        "package-lock.json",
        "yarn.lock",
        "pnpm-lock.yaml",
        "poetry.lock",
        "Pipfile.lock",
        "composer.lock",
        "Gemfile.lock",
        "go.sum",
    ];
    let ghost list = spec_lock_files();
    assert(ignored_files@.map_values(|s: &str| s@) =~= list);
    let mut i: usize = 0;
    while i < ignored_files.len()
        invariant
            i <= ignored_files.len(),
            ignored_files@.map_values(|s: &str| s@) == list,
            list == spec_lock_files(),
            name@ == spec_file_name(path@)->0,
            spec_file_name(path@) is Some,
            forall|k: int| 0 <= k < i ==> list[k] != name@,
        decreases ignored_files.len() - i,
    {
        assert(list[i as int] == ignored_files@[i as int]@);
        if str_eq(ignored_files[i], name.as_str()) {
            assert(list[i as int] == name@);
            assert(list.contains(name@));
            return true;
        }
        i = i + 1;
    }
    false
}

/// Whether one of the patterns occurs in the path.
pub fn should_ignore_by_custom_patterns(path: &str, patterns: &[String]) -> (r: bool)
    ensures
        r == spec_matches_patterns(path@, patterns@.map_values(|s: String| s@)),
{
    let ghost pv = patterns@.map_values(|s: String| s@);
    let mut i: usize = 0;
    while i < patterns.len()
        invariant
            i <= patterns.len(),
            pv == patterns@.map_values(|s: String| s@),
            forall|k: int| 0 <= k < i ==> !contains_seq(path@, #[trigger] pv[k]),
        decreases patterns.len() - i,
    {
        assert(pv[i as int] == patterns@[i as int]@);
        if contains(path, patterns[i].as_str()) {
            return true;
        }
        i = i + 1;
    }
    false
}

/// One line of a printed diff, as the filter reads it: the new file's path
/// (lossily as text) when the delta has one, and the line's text when it is
/// valid UTF-8.
pub struct DiffLine {
    pub path: Option<String>,
    pub content: Option<String>,
}

/// A line is left out when its file is a lock file (and lock files are
/// ignored) or matches a custom pattern.
pub open spec fn spec_skip_line(l: DiffLine, c: CommitConfig) -> bool {
    match l.path {
        Some(p) => (c.ignore_lock_files && spec_is_lock_file(p@)) || spec_matches_patterns(
            p@,
            strings_view(c.custom_ignore_patterns@),
        ),
        None => false,
    }
}

/// The text of the diff that the model sees: the contents of the lines kept, in order.
pub open spec fn spec_format_diff(lines: Seq<DiffLine>, c: CommitConfig) -> Seq<char>
    decreases lines.len(),
{
    if lines.len() == 0 {
        Seq::empty()
    } else {
        let last = lines.last();
        let rest = spec_format_diff(lines.drop_last(), c);
        if !spec_skip_line(last, c) && last.content is Some {
            rest + last.content->0@
        } else {
            rest
        }
    }
}

/// The diff text: the contents of the lines not left out, in order.
pub fn format_diff(lines: &Vec<DiffLine>, commit_config: &CommitConfig) -> (r: String)
    ensures
        r@ == spec_format_diff(lines@, *commit_config),
{
    let mut out = String::new();
    let mut i: usize = 0;
    while i < lines.len()
        invariant
            i <= lines.len(),
            out@ == spec_format_diff(lines@.take(i as int), *commit_config),
        decreases lines.len() - i,
    {
        let line = &lines[i];
        assert(lines@.take(i + 1).drop_last() =~= lines@.take(i as int));
        assert(lines@.take(i + 1).last() == *line);
        let skip = match &line.path {
            Some(p) => (commit_config.ignore_lock_files && should_ignore_file(p.as_str()))
                || should_ignore_by_custom_patterns(
                p.as_str(),
                commit_config.custom_ignore_patterns.as_slice(),
            ),
            None => false,
        };
        if !skip {
            if let Some(c) = &line.content {
                out.append(c.as_str());
            }
        }
        i = i + 1;
    }
    assert(lines@.take(i as int) =~= lines@);
    out
}

/// The filter works line by line: the diff of two runs of lines is the diff
/// of the first followed by the diff of the second.
pub proof fn lemma_format_diff_concat(a: Seq<DiffLine>, b: Seq<DiffLine>, c: CommitConfig)
    ensures
        spec_format_diff(a + b, c) == spec_format_diff(a, c) + spec_format_diff(b, c),
    decreases b.len(),
{
    if b.len() == 0 {
        assert(a + b =~= a);
        assert(spec_format_diff(a, c) + Seq::<char>::empty() =~= spec_format_diff(a, c));
    } else {
        assert((a + b).drop_last() =~= a + b.drop_last());
        assert((a + b).last() == b.last());
        lemma_format_diff_concat(a, b.drop_last(), c);
        let last = b.last();
        if !spec_skip_line(last, c) && last.content is Some {
            assert(spec_format_diff(a, c) + spec_format_diff(b.drop_last(), c) + last.content->0@
                =~= spec_format_diff(a, c) + (spec_format_diff(b.drop_last(), c)
                + last.content->0@));
        }
    }
}

/// Lock files stay out of what the model sees: when they are ignored, a line
/// of a lock file adds nothing to the diff, wherever it stands.
pub proof fn lemma_lock_file_lines_dropped(
    before: Seq<DiffLine>,
    line: DiffLine,
    after: Seq<DiffLine>,
    c: CommitConfig,
)
    requires
        c.ignore_lock_files,
        line.path matches Some(p) && spec_is_lock_file(p@),
    ensures
        spec_format_diff(before + seq![line] + after, c) == spec_format_diff(before + after, c),
{
    lemma_format_diff_concat(before + seq![line], after, c);
    lemma_format_diff_concat(before, seq![line], c);
    lemma_format_diff_concat(before, after, c);
    assert(seq![line].drop_last() =~= Seq::<DiffLine>::empty());
    assert(seq![line].last() == line);
    assert(spec_skip_line(line, c));
    assert(spec_format_diff(Seq::<DiffLine>::empty(), c) =~= Seq::<char>::empty());
    assert(spec_format_diff(seq![line], c) =~= Seq::<char>::empty());
    assert(spec_format_diff(before, c) + Seq::<char>::empty() =~= spec_format_diff(before, c));
}

/// Custom ignore patterns apply whether or not lock files are ignored: a line
/// whose path contains one of the patterns adds nothing to the diff, wherever
/// it stands.
pub proof fn lemma_pattern_lines_dropped(
    before: Seq<DiffLine>,
    line: DiffLine,
    after: Seq<DiffLine>,
    c: CommitConfig,
)
    requires
        line.path matches Some(p) && spec_matches_patterns(
            p@,
            strings_view(c.custom_ignore_patterns@),
        ),
    ensures
        spec_format_diff(before + seq![line] + after, c) == spec_format_diff(before + after, c),
{
    lemma_format_diff_concat(before + seq![line], after, c);
    lemma_format_diff_concat(before, seq![line], c);
    lemma_format_diff_concat(before, after, c);
    assert(seq![line].drop_last() =~= Seq::<DiffLine>::empty());
    assert(seq![line].last() == line);
    assert(spec_skip_line(line, c));
    assert(spec_format_diff(Seq::<DiffLine>::empty(), c) =~= Seq::<char>::empty());
    assert(spec_format_diff(seq![line], c) =~= Seq::<char>::empty());
    assert(spec_format_diff(before, c) + Seq::<char>::empty() =~= spec_format_diff(before, c));
}

/// A line that is neither a lock file being ignored nor matched by a pattern
/// reaches the diff as it is: its content follows what the lines before it give.
pub proof fn lemma_kept_line_appended(before: Seq<DiffLine>, line: DiffLine, c: CommitConfig)
    requires
        line.content is Some,
        match line.path {
            Some(p) => !(c.ignore_lock_files && spec_is_lock_file(p@)) && !spec_matches_patterns(
                p@,
                strings_view(c.custom_ignore_patterns@),
            ),
            None => true,
        },
    ensures
        spec_format_diff(before + seq![line], c) == spec_format_diff(before, c)
            + line.content->0@,
{
    assert((before + seq![line]).drop_last() =~= before);
    assert((before + seq![line]).last() == line);
}

} // verus!

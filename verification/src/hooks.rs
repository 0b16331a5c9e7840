//! Git hook locations, hook recognition and shebang parsing.
use vstd::prelude::*;

use crate::dirs::{push_path, spec_push_path};
use crate::git::diff::{file_name, opt_seq, spec_file_name};
use crate::text::{
    chars_of, contains, contains_seq, copy_str, is_white_space, is_whitespace_char, str_eq,
    string_of_range, trim, trim_seq,
};

verus! {

/// The hook that the tool installs.
pub const HOOK_PREPARE_COMMIT_MSG: &'static str = "prepare-commit-msg";

/// The hook that Git runs before a commit.
pub const HOOK_PRE_COMMIT: &'static str = "pre-commit";

/// A file is executable when its Unix mode grants execution to someone; a file
/// whose metadata cannot be read is not.
pub fn is_executable(mode: Option<u32>) -> (r: bool)
    ensures
        r == (mode matches Some(m) && m & 0o111u32 != 0),
{
    match mode {
        Some(m) => m & 0o111u32 != 0,
        None => false,
    }
}

/// Expand a hook path according to the rule of githooks and `core.hooksPath`:
/// an absolute (already shell-expanded) path stands, a relative one is taken
/// from the working directory.
pub fn expand_hook_path(pwd: &str, expanded: &str) -> (r: String)
    ensures
        r@ == spec_push_path(pwd@, expanded@),
{
    push_path(pwd, expanded)
}

/// The hook file in a hooks directory.
pub fn hook_in_dir(hooks_dir: &str, hook: &str) -> (r: String)
    ensures
        r@ == spec_push_path(hooks_dir@, hook@),
{
    push_path(hooks_dir, hook)
}

/// The default location of a hook: `hooks/<hook>` in the Git directory.
pub fn default_hook_path(git_dir: &str, hook: &str) -> (r: String)
    ensures
        r@ == spec_push_path(spec_push_path(git_dir@, "hooks"@), hook@),
{
    let dir = push_path(git_dir, "hooks");
    push_path(dir.as_str(), hook)
}

/// A hook file is the tool's own when it could be read and its text mentions `ai-commit`.
pub open spec fn spec_is_ai_commit_hook(content: Option<Seq<char>>) -> bool {
    content matches Some(c) && contains_seq(c, "ai-commit"@)
}

/// Whether a hook file is the tool's own, given its content (`None` when the
/// file cannot be read).
pub fn is_ai_commit_hook(content: Option<&str>) -> (r: bool)
    ensures
        r == spec_is_ai_commit_hook(
            match content {
                Some(c) => Some(c@),
                None => None,
            },
        ),
{
    match content {
        Some(c) => contains(c, "ai-commit"),
        None => false,
    }
}

/// The note that the prepare-commit-msg hook appends to a message.
pub open spec fn spec_ai_note() -> Seq<char> {
    "\n\n[AI-assisted commit message]"@
}

/// What the prepare-commit-msg hook makes of a commit message: the message
/// with the tool's note appended.
pub fn prepare_commit_msg(commit_msg: String) -> (r: String)
    ensures
        r@ == commit_msg@ + spec_ai_note(),
{
    let mut r = commit_msg;
    r.append("\n\n[AI-assisted commit message]");
    r
}

/// The longest prefix of `s` without white space.
pub open spec fn leading_word(s: Seq<char>) -> Seq<char>
    decreases s.len(),
{
    if s.len() == 0 || is_white_space(s[0]) {
        Seq::empty()
    } else {
        seq![s[0]] + leading_word(s.drop_first())
    }
}

/// A leading word is a prefix of the text, non-empty when the text starts
/// with a character that is not white space.
pub proof fn lemma_leading_word(s: Seq<char>)
    ensures
        leading_word(s).len() <= s.len(),
        leading_word(s) == s.take(leading_word(s).len() as int),
        s.len() > 0 && !is_white_space(s[0]) ==> leading_word(s).len() >= 1,
    decreases s.len(),
{
    if s.len() > 0 && !is_white_space(s[0]) {
        lemma_leading_word(s.drop_first());
        assert(leading_word(s) =~= s.take(leading_word(s).len() as int));
    } else {
        assert(s.take(0) =~= Seq::<char>::empty());
    }
}

/// What `str::split_whitespace` yields: the maximal runs of characters that
/// are not white space, in order.
pub open spec fn spec_words(s: Seq<char>) -> Seq<Seq<char>>
    decreases s.len(),
{
    if s.len() == 0 {
        Seq::empty()
    } else if is_white_space(s[0]) {
        spec_words(s.drop_first())
    } else {
        proof {
            lemma_leading_word(s);
        }
        let w = leading_word(s);
        seq![w] + spec_words(s.skip(w.len() as int))
    }
}

proof fn lemma_leading_word_step(s: Seq<char>, start: int, i: int)
    requires
        0 <= start <= i < s.len(),
        !is_white_space(s[i]),
    ensures
        leading_word(s.skip(i)) == seq![s[i]] + leading_word(s.skip(i + 1)),
{
    assert(s.skip(i).drop_first() =~= s.skip(i + 1));
}

/// `str::split_whitespace`, collected.
pub fn split_whitespace(s: &str) -> (r: Vec<String>)
    ensures
        r@.map_values(|w: String| w@) == spec_words(s@),
{
    let v = chars_of(s);
    let n = v.len();
    let mut out: Vec<String> = Vec::new();
    let mut i: usize = 0;
    assert(v@.skip(0) =~= v@);
    assert(out@.map_values(|w: String| w@) + spec_words(v@.skip(0)) =~= spec_words(v@));
    while i < n
        invariant
            n == v.len(),
            v@ == s@,
            i <= n,
            spec_words(s@) == out@.map_values(|w: String| w@) + spec_words(v@.skip(i as int)),
        decreases n - i,
    {
        if is_whitespace_char(v[i]) {
            assert(v@.skip(i as int).drop_first() =~= v@.skip(i + 1));
            i = i + 1;
        } else {
            let start = i;
            assert(v@.skip(i as int) =~= v@.subrange(start as int, i as int) + v@.skip(i as int));
            while i < n && !is_whitespace_char(v[i])
                invariant
                    n == v.len(),
                    start <= i <= n,
                    leading_word(v@.skip(start as int)) == v@.subrange(start as int, i as int)
                        + leading_word(v@.skip(i as int)),
                decreases n - i,
            {
                proof {
                    lemma_leading_word_step(v@, start as int, i as int);
                }
                assert(v@.subrange(start as int, i + 1) =~= v@.subrange(start as int, i as int)
                    + seq![v@[i as int]]);
                i = i + 1;
            }
            if i < n {
                assert(v@.skip(i as int).len() > 0 && is_white_space(v@.skip(i as int)[0]));
            }
            assert(leading_word(v@.skip(i as int)) =~= Seq::<char>::empty());
            let w = string_of_range(&v, start, i);
            let ghost sk = v@.skip(start as int);
            assert(w@ =~= leading_word(sk));
            assert(sk.skip(w@.len() as int) =~= v@.skip(i as int));
            assert(sk[0] == v@[start as int]);
            assert(spec_words(sk) == seq![w@] + spec_words(v@.skip(i as int)));
            let ghost before = out@;
            out.push(w);
            assert(out@.map_values(|x: String| x@) =~= before.map_values(|x: String| x@).push(
                w@,
            ));
            assert(out@.map_values(|x: String| x@) + spec_words(v@.skip(i as int)) =~= before.map_values(
                |x: String| x@,
            ) + (seq![w@] + spec_words(v@.skip(i as int))));
        }
    }
    assert(v@.skip(n as int) =~= Seq::<char>::empty());
    assert(out@.map_values(|w: String| w@) + Seq::<Seq<char>>::empty() =~= out@.map_values(
        |w: String| w@,
    ));
    out
}

/// The first word of `ws` that does not start with `-`.
pub open spec fn first_non_flag(ws: Seq<Seq<char>>) -> Option<Seq<char>>
    decreases ws.len(),
{
    if ws.len() == 0 {
        None
    } else if !(ws[0].len() > 0 && ws[0][0] == '-') {
        Some(ws[0])
    } else {
        first_non_flag(ws.drop_first())
    }
}

/// The path with every `\` written as `/`.
pub open spec fn spec_slashes(p: Seq<char>) -> Seq<char> {
    p.map_values(|c: char| if c == '\\' { '/' } else { c })
}

/// The file name of a path whose components `/` or `\` separate (drive
/// prefixes such as `C:` apart, which have no component of their own here).
pub open spec fn spec_hook_file_name(p: Seq<char>) -> Option<Seq<char>> {
    spec_file_name(spec_slashes(p))
}

/// The file name of a path whose components `/` or `\` separate.
pub fn hook_file_name(p: &str) -> (r: Option<String>)
    ensures
        opt_seq(r) == spec_hook_file_name(p@),
{
    let v = chars_of(p);
    let mut out = String::new();
    let mut i: usize = 0;
    while i < v.len()
        invariant
            i <= v.len(),
            v@ == p@,
            out@ == spec_slashes(v@.take(i as int)),
        decreases v.len() - i,
    {
        let c = if v[i] == '\\' {
            '/'
        } else {
            v[i]
        };
        out.push(c);
        assert(spec_slashes(v@.take(i + 1)) =~= spec_slashes(v@.take(i as int)).push(c));
        i = i + 1;
    }
    assert(v@.take(v.len() as int) =~= v@);
    file_name(out.as_str())
}

/// The interpreter that a hook's first line names: after `#!`, the program's
/// file name, or, when the program is `env`, the file name of the first
/// argument that is not an option. File names are taken as on Windows, where
/// hooks are run through an interpreter: `\` separates components as `/` does.
pub open spec fn spec_shebang_interpreter(line: Seq<char>) -> Option<Seq<char>> {
    let t = trim_seq(line);
    if t.len() < 2 || t.take(2) != "#!"@ {
        None
    } else {
        let words = spec_words(t.skip(2));
        if words.len() == 0 {
            None
        } else {
            match spec_hook_file_name(words[0]) {
                None => None,
                Some(program_name) => {
                    let name = if program_name == "env"@ {
                        first_non_flag(words.drop_first())
                    } else {
                        Some(words[0])
                    };
                    match name {
                        Some(n) => spec_hook_file_name(n),
                        None => None,
                    }
                },
            }
        }
    }
}

/// Parse the interpreter name from a hook's shebang line, e.g.
/// `#!/usr/bin/env sh` and `#!/bin/bash` yield `sh` and `bash`.
pub fn shebang_interpreter(first_line: &str) -> (r: Option<String>)
    ensures
        opt_seq(r) == spec_shebang_interpreter(first_line@),
{
    let t = trim(first_line);
    let v = chars_of(t.as_str());
    proof {
        reveal_strlit("#!");
        reveal_strlit("env");
    }
    if v.len() < 2 || v[0] != '#' || v[1] != '!' {
        if v.len() >= 2 {
            assert(v@.take(2) != "#!"@ || (v@[0] == '#' && v@[1] == '!')) by {
                if v@.take(2) == "#!"@ {
                    assert(v@.take(2)[0] == '#');
                    assert(v@.take(2)[1] == '!');
                }
            }
        }
        return None;
    }
    assert(v@.take(2) =~= "#!"@);
    let rest = string_of_range(&v, 2, v.len());
    assert(rest@ =~= v@.skip(2));
    let words = split_whitespace(rest.as_str());
    let ghost wv = words@.map_values(|w: String| w@);
    if words.len() == 0 {
        return None;
    }
    assert(wv[0] == words@[0]@);
    let program_name = match hook_file_name(words[0].as_str()) {
        Some(p) => p,
        None => {
            return None;
        },
    };
    if str_eq(program_name.as_str(), "env") {
        let mut i: usize = 1;
        assert(wv.drop_first().skip(0) =~= wv.drop_first());
        let ghost found = first_non_flag(wv.drop_first());
        assert(spec_shebang_interpreter(first_line@) == match found {
            Some(n) => spec_hook_file_name(n),
            None => None,
        });
        while i < words.len()
            invariant
                1 <= i <= words.len(),
                found == first_non_flag(wv.drop_first()),
                spec_shebang_interpreter(first_line@) == match found {
                    Some(n) => spec_hook_file_name(n),
                    None => None,
                },
                wv == words@.map_values(|w: String| w@),
                first_non_flag(wv.drop_first()) == first_non_flag(wv.drop_first().skip(i - 1)),
            decreases words.len() - i,
        {
            let w = chars_of(words[i].as_str());
            assert(wv.drop_first().skip(i - 1)[0] == words@[i as int]@);
            if !(w.len() > 0 && w[0] == '-') {
                assert(first_non_flag(wv.drop_first().skip(i - 1)) == Some(words@[i as int]@));
                return hook_file_name(words[i].as_str());
            }
            assert(wv.drop_first().skip(i - 1).drop_first() =~= wv.drop_first().skip(i as int));
            i = i + 1;
        }
        assert(wv.drop_first().skip(i - 1) =~= Seq::<Seq<char>>::empty());
        None
    } else {
        hook_file_name(words[0].as_str())
    }
}

/// Where a hook is found: the hook under `core.hooksPath` when that is set and
/// the file exists, else the default hook when it exists.
pub open spec fn spec_hook_path(
    config_hook: Option<Seq<char>>,
    config_exists: bool,
    default_hook: Seq<char>,
    default_exists: bool,
) -> Option<Seq<char>> {
    if config_hook is Some && config_exists {
        config_hook
    } else if default_exists {
        Some(default_hook)
    } else {
        None
    }
}

/// The path of a hook, given the candidate under `core.hooksPath` (already
/// expanded, `None` when the setting is absent), the default candidate, and
/// whether each exists.
pub fn get_hook_path(
    config_hook: Option<&str>,
    config_exists: bool,
    default_hook: &str,
    default_exists: bool,
) -> (r: Option<String>)
    ensures
        opt_seq(r) == spec_hook_path(
            match config_hook {
                Some(c) => Some(c@),
                None => None,
            },
            config_exists,
            default_hook@,
            default_exists,
        ),
{
    if let Some(c) = config_hook {
        if config_exists {
            return Some(copy_str(c));
        }
    }
    if default_exists {
        Some(copy_str(default_hook))
    } else {
        None
    }
}

/// The hook that can be run: the one found, when its file is executable
/// (`mode` is its Unix mode, `None` when its metadata cannot be read).
pub fn find_available_hook(hook_path: Option<String>, mode: Option<u32>) -> (r: Option<String>)
    ensures
        opt_seq(r) == if mode matches Some(m) && m & 0o111u32 != 0 {
            opt_seq(hook_path)
        } else {
            None
        },
{
    match hook_path {
        Some(p) => if is_executable(mode) {
            Some(p)
        } else {
            None
        },
        None => None,
    }
}

/// What `PathBuf::push` (and `Path::join`) makes of `base` and a relative
/// component without a drive prefix on Windows: `comp` is appended, with a
/// `\` between them unless `base` is empty, ends in a separator, or is a bare
/// drive such as `C:`.
pub open spec fn spec_windows_join(base: Seq<char>, comp: Seq<char>) -> Seq<char> {
    let bare_drive = base.len() == 2 && base[1] == ':' && (('a' <= base[0] && base[0] <= 'z') || (
    'A' <= base[0] && base[0] <= 'Z'));
    if base.len() == 0 || base.last() == '/' || base.last() == '\\' || bare_drive {
        base + comp
    } else {
        base + seq!['\\'] + comp
    }
}

/// `Path::join` on Windows, for a relative component without a drive prefix.
pub fn windows_join(base: &str, comp: &str) -> (r: String)
    ensures
        r@ == spec_windows_join(base@, comp@),
{
    let b = chars_of(base);
    let n = b.len();
    let bare_drive = n == 2 && b[1] == ':' && (('a' <= b[0] && b[0] <= 'z') || ('A' <= b[0] && b[0]
        <= 'Z'));
    let mut r = copy_str(base);
    if !(n == 0 || b[n - 1] == '/' || b[n - 1] == '\\' || bare_drive) {
        r.push('\\');
    }
    r.append(comp);
    r
}

/// Where Git for Windows keeps a shell named `interpreter`: `bin` and then
/// `usr/bin` under its installation root, joined as Windows joins paths.
pub open spec fn spec_shell_candidates(interpreter: Seq<char>, root: Seq<char>) -> Seq<Seq<char>> {
    let exe = interpreter + ".exe"@;
    seq![
        spec_windows_join(spec_windows_join(root, "bin"@), exe),
        spec_windows_join(spec_windows_join(root, "usr/bin"@), exe),
    ]
}

/// The files to look for, in order, when a hook names `interpreter`.
pub fn shell_candidates(interpreter: &str, root: &str) -> (r: Vec<String>)
    ensures
        r@.map_values(|c: String| c@) == spec_shell_candidates(interpreter@, root@),
{
    let mut exe = copy_str(interpreter);
    exe.append(".exe");
    let bin = windows_join(root, "bin");
    let usr_bin = windows_join(root, "usr/bin");
    let r = vec![
        windows_join(bin.as_str(), exe.as_str()),
        windows_join(usr_bin.as_str(), exe.as_str()),
    ];
    assert(r@.map_values(|c: String| c@) =~= spec_shell_candidates(interpreter@, root@));
    r
}

/// The shell that runs a hook on Windows: none unless the hook's first line
/// names an interpreter; then the first candidate under the Git installation
/// root that is a file, else the interpreter's bare name, looked up on `PATH`.
/// `is_file[k]` says whether the `k`-th of [`shell_candidates`] is a file.
pub open spec fn spec_windows_shell_for(
    first_line: Seq<char>,
    git_root: Option<Seq<char>>,
    is_file: Seq<bool>,
) -> Option<Seq<char>> {
    match spec_shebang_interpreter(first_line) {
        None => None,
        Some(i) => match git_root {
            Some(root) => if is_file.len() > 0 && is_file[0] {
                Some(spec_shell_candidates(i, root)[0])
            } else if is_file.len() > 1 && is_file[1] {
                Some(spec_shell_candidates(i, root)[1])
            } else {
                Some(i)
            },
            None => Some(i),
        },
    }
}

/// Resolve the shell that should run a shebang hook on Windows, preferring
/// the interpreter shipped with Git for Windows and falling back to `PATH`
/// lookup by name.
pub fn windows_shell_for(first_line: &str, git_root: Option<&str>, is_file: &Vec<bool>) -> (r:
    Option<String>)
    ensures
        opt_seq(r) == spec_windows_shell_for(
            first_line@,
            match git_root {
                Some(g) => Some(g@),
                None => None,
            },
            is_file@,
        ),
{
    let interpreter = match shebang_interpreter(first_line) {
        Some(i) => i,
        None => {
            return None;
        },
    };
    if let Some(root) = git_root {
        let candidates = shell_candidates(interpreter.as_str(), root);
        let ghost cv = candidates@.map_values(|c: String| c@);
        assert(cv.len() == 2);
        assert(candidates@.len() == 2);
        assert(cv[0] == candidates@[0]@);
        assert(cv[1] == candidates@[1]@);
        if is_file.len() > 0 && is_file[0] {
            return Some(copy_str(candidates[0].as_str()));
        }
        if is_file.len() > 1 && is_file[1] {
            return Some(copy_str(candidates[1].as_str()));
        }
    }
    Some(interpreter)
}

} // verus!

//! Where the tool keeps its files, with paths as text.
use vstd::prelude::*;

use crate::text::{chars_of, copy_str};

verus! {

/// What `PathBuf::push` (and `Path::join`) makes of `base` and `comp` on Unix:
/// an absolute `comp` replaces `base`; otherwise `comp` is appended, with a
/// slash between them when `base` is not empty and does not end in one.
pub open spec fn spec_push_path(base: Seq<char>, comp: Seq<char>) -> Seq<char> {
    if comp.len() > 0 && comp[0] == '/' {
        comp
    } else if base.len() == 0 || base.last() == '/' {
        base + comp
    } else {
        base + seq!['/'] + comp
    }
}

/// `Path::join` on Unix, with paths as text.
pub fn push_path(base: &str, comp: &str) -> (r: String)
    ensures
        r@ == spec_push_path(base@, comp@),
{
    let b = chars_of(base);
    let c = chars_of(comp);
    if c.len() > 0 && c[0] == '/' {
        return copy_str(comp);
    }
    let mut r = copy_str(base);
    if b.len() > 0 && b[b.len() - 1] != '/' {
        r.push('/');
    }
    r.append(comp);
    r
}

/// Why the tool's directory cannot be found.
#[derive(Clone, Copy, Debug, PartialEq, Eq, Structural)]
pub enum DirsError {
    /// `HOME` is not set.
    NoHome,
}

/// The tool's directory under a home directory: `<home>/.config/ai-commit`.
pub open spec fn spec_work_dir(home: Seq<char>) -> Seq<char> {
    spec_push_path(spec_push_path(home, ".config"@), "ai-commit"@)
}

/// The tool's directory, given the value of `HOME`.
pub fn get_work_dir(home: Option<&str>) -> (r: Result<String, DirsError>)
    ensures
        match home {
            Some(h) => r matches Ok(d) && d@ == spec_work_dir(h@),
            None => r == Err::<String, DirsError>(DirsError::NoHome),
        },
{
    match home {
        Some(h) => {
            let config = push_path(h, ".config");
            Ok(push_path(config.as_str(), "ai-commit"))
        },
        None => Err(DirsError::NoHome),
    }
}

/// The configuration file, given the value of `HOME`: `config.toml` in the tool's directory.
pub fn get_config_file_path(home: Option<&str>) -> (r: Result<String, DirsError>)
    ensures
        match home {
            Some(h) => r matches Ok(p) && p@ == spec_push_path(spec_work_dir(h@), "config.toml"@),
            None => r == Err::<String, DirsError>(DirsError::NoHome),
        },
{
    let dir = get_work_dir(home)?;
    Ok(push_path(dir.as_str(), "config.toml"))
}

/// The cache file, given the value of `HOME`: `.cache` in the tool's directory.
pub fn get_cache_file_path(home: Option<&str>) -> (r: Result<String, DirsError>)
    ensures
        match home {
            Some(h) => r matches Ok(p) && p@ == spec_push_path(spec_work_dir(h@), ".cache"@),
            None => r == Err::<String, DirsError>(DirsError::NoHome),
        },
{
    let dir = get_work_dir(home)?;
    Ok(push_path(dir.as_str(), ".cache"))
}

} // verus!

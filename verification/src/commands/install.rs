//! The decision of `install`: whether the prepare-commit-msg hook is written.
use vstd::prelude::*;

use crate::hooks::{is_ai_commit_hook, spec_is_ai_commit_hook};
use crate::text::occurs_at;

verus! {

/// What `install` does with the hook file.
#[derive(Clone, Copy, Debug, PartialEq, Eq, Structural)]
pub enum InstallAction {
    /// No hook is there: write it.
    Write,
    /// The tool's own hook is there: write it again.
    Overwrite,
    /// Another hook is there: leave it alone.
    SkipForeign,
}

/// Decide what `install` does, given whether the hook file exists and, if it
/// does, its content (`None` when it cannot be read).
pub fn install_action(exists: bool, content: Option<&str>) -> (r: InstallAction)
    ensures
        !exists ==> r == InstallAction::Write,
        exists && spec_is_ai_commit_hook(
            match content {
                Some(c) => Some(c@),
                None => None,
            },
        ) ==> r == InstallAction::Overwrite,
        exists && !spec_is_ai_commit_hook(
            match content {
                Some(c) => Some(c@),
                None => None,
            },
        ) ==> r == InstallAction::SkipForeign,
{
    if !exists {
        InstallAction::Write
    } else if is_ai_commit_hook(content) {
        InstallAction::Overwrite
    } else {
        InstallAction::SkipForeign
    }
}

/// The prepare-commit-msg hook that `install` writes: for a new commit without
/// a message source, it fills the message file with a generated message.
pub const HOOK_SCRIPT: &'static str = "#!/bin/sh\n# ai-commit prepare-commit-msg hook\ncase \"$2\" in\n  \"\") exec ai-commit commit --generate-only --output-file \"$1\" ;;\nesac\n";

/// The hook that `install` writes is recognised as the tool's own, so a later
/// `install` overwrites it and `uninstall` removes it.
pub proof fn lemma_installed_hook_is_own()
    ensures
        spec_is_ai_commit_hook(Some(HOOK_SCRIPT@)),
{
    reveal_strlit("#!/bin/sh\n# ai-commit prepare-commit-msg hook\ncase \"$2\" in\n  \"\") exec ai-commit commit --generate-only --output-file \"$1\" ;;\nesac\n");
    reveal_strlit("ai-commit");
    assert(HOOK_SCRIPT@.subrange(12, 21) =~= "ai-commit"@);
    assert(occurs_at(HOOK_SCRIPT@, "ai-commit"@, 12));
}

/// The Unix mode that an installed hook gets.
pub const HOOK_FILE_MODE: u32 = 0o755u32;

} // verus!

//! The decision of `uninstall`: whether the prepare-commit-msg hook is removed.
use vstd::prelude::*;

use crate::hooks::{is_ai_commit_hook, spec_is_ai_commit_hook};

verus! {

/// What `uninstall` does with the hook file.
#[derive(Clone, Copy, Debug, PartialEq, Eq, Structural)]
pub enum UninstallAction {
    /// The tool's own hook is there: remove it.
    Remove,
    /// Another hook is there: leave it alone.
    SkipForeign,
    /// No hook is there.
    NotFound,
}

/// Decide what `uninstall` does, given whether the hook file exists and, if it
/// does, its content (`None` when it cannot be read).
pub fn uninstall_action(exists: bool, content: Option<&str>) -> (r: UninstallAction)
    ensures
        !exists ==> r == UninstallAction::NotFound,
        exists && spec_is_ai_commit_hook(
            match content {
                Some(c) => Some(c@),
                None => None,
            },
        ) ==> r == UninstallAction::Remove,
        exists && !spec_is_ai_commit_hook(
            match content {
                Some(c) => Some(c@),
                None => None,
            },
        ) ==> r == UninstallAction::SkipForeign,
{
    if !exists {
        UninstallAction::NotFound
    } else if is_ai_commit_hook(content) {
        UninstallAction::Remove
    } else {
        UninstallAction::SkipForeign
    }
}

} // verus!

//! The decisions of the `commit` command, as a state machine: the caller
//! performs each action (reading diffs, asking the user, calling the model,
//! committing) and hands back what came of it.
use vstd::prelude::*;

verus! {

/// The options that a run of `commit` starts with.
#[derive(Clone, Copy, Debug, PartialEq, Eq, Structural)]
pub struct CommitFlags {
    /// Only produce the message: no commit, no question.
    pub generate_only: bool,
    /// Write the message to a file instead of committing.
    pub has_output_file: bool,
    /// Commit without asking (from the configuration).
    pub auto_confirm: bool,
    /// Only show the message, never commit (`--dry-run`, or
    /// `dry_run_by_default` in the configuration).
    pub dry_run: bool,
}

/// Where a run of `commit` stands.
#[derive(Clone, Copy, Debug, PartialEq, Eq, Structural)]
pub enum CommitPhase {
    /// Nothing done yet.
    Start,
    /// The staged and unstaged diffs are being read.
    AwaitDiffs,
    /// A diff was chosen; it is being announced or looked up in the cache.
    AwaitCache,
    /// A cached message was shown; the user decides whether to regenerate.
    AwaitRegenerateAnswer,
    /// A message is being generated.
    AwaitGenerated,
    /// The generated message is being shown.
    AwaitShown,
    /// The user decides whether to edit the message.
    AwaitEditAnswer,
    /// The message is open in an editor.
    AwaitEditor,
    /// The user decides whether to commit.
    AwaitCommitAnswer,
    /// The run is over.
    Finished,
}

/// The state of a run of `commit`.
#[derive(Clone, Copy, Debug, PartialEq, Eq, Structural)]
pub struct CommitState {
    pub flags: CommitFlags,
    pub phase: CommitPhase,
    /// Nothing will be committed: the run was asked to be a dry run, or the
    /// diff is unstaged.
    pub dry_run: bool,
    /// The message was freshly generated and has not been shown yet.
    pub should_print: bool,
}

/// What came of the last action.
#[derive(Clone, Copy, Debug, PartialEq, Eq, Structural)]
pub enum CommitEvent {
    /// The action is done and yields nothing.
    Done,
    /// Whether the staged and the unstaged diffs hold changes.
    Diffs { staged_present: bool, unstaged_present: bool },
    /// Whether the cache holds a message for the diff.
    CacheHit(bool),
    /// The user's answer to the last question.
    Answer(bool),
    /// Whether a non-empty message was generated (and cached).
    Generated(bool),
    /// Whether the editor returned an edited message.
    Edited(bool),
}

/// What to do next.
#[derive(Clone, Copy, Debug, PartialEq, Eq, Structural)]
pub enum CommitAction {
    /// Read the staged and unstaged diffs.
    ReadDiffs,
    /// Say that there is nothing to commit.
    ReportNoChanges,
    /// Say that staged changes were found and a message is being generated.
    AnnounceStaged,
    /// Say that only unstaged changes were found, that this is a dry run, and
    /// that a message is being generated.
    AnnounceUnstaged,
    /// Hash the diff and look it up in the cache.
    LookupCache,
    /// Take the cached message as it is.
    UseCached,
    /// Show the cached message and ask whether to regenerate it.
    ShowCachedAskRegenerate,
    /// Generate a message with the model and cache it.
    Generate,
    /// Write the message to the output file (and say so when not in generate-only mode).
    WriteOutputFile,
    /// Print the message alone.
    PrintMessage,
    /// Show the generated message.
    ShowGenerated,
    /// Say that this was a dry run and how to commit.
    ShowDryRunHint,
    /// Ask whether to edit the message.
    AskEdit,
    /// Open the message in an editor.
    OpenEditor,
    /// Show the edited message and cache it.
    ShowEditedAndCache,
    /// Ask whether to commit.
    AskCommit,
    /// Say that the commit was cancelled.
    ReportCancelled,
    /// Commit with the message.
    Commit,
    /// Do nothing more.
    Stop,
}

/// The state a run starts in.
pub open spec fn spec_commit_start(flags: CommitFlags) -> CommitState {
    CommitState { flags, phase: CommitPhase::Start, dry_run: flags.dry_run, should_print: false }
}

/// The step taken once the message is known: write it, print it, show it, or
/// go on to the questions.
pub open spec fn spec_after_message(s: CommitState) -> (CommitState, CommitAction) {
    if s.flags.has_output_file {
        (CommitState { phase: CommitPhase::Finished, ..s }, CommitAction::WriteOutputFile)
    } else if s.flags.generate_only {
        (CommitState { phase: CommitPhase::Finished, ..s }, CommitAction::PrintMessage)
    } else if s.should_print {
        (CommitState { phase: CommitPhase::AwaitShown, ..s }, CommitAction::ShowGenerated)
    } else {
        spec_before_questions(s)
    }
}

/// The step taken after the message has been shown: a dry run ends with a
/// hint, otherwise the user is asked unless the configuration confirms.
pub open spec fn spec_before_questions(s: CommitState) -> (CommitState, CommitAction) {
    if s.dry_run {
        (CommitState { phase: CommitPhase::Finished, ..s }, CommitAction::ShowDryRunHint)
    } else if !s.flags.auto_confirm {
        (CommitState { phase: CommitPhase::AwaitEditAnswer, ..s }, CommitAction::AskEdit)
    } else {
        (CommitState { phase: CommitPhase::Finished, ..s }, CommitAction::Commit)
    }
}

/// The transition table of `commit`. An event that the phase does not expect
/// ends the run.
pub open spec fn spec_commit_step(s: CommitState, e: CommitEvent) -> (CommitState, CommitAction) {
    let finish = CommitState { phase: CommitPhase::Finished, ..s };
    match s.phase {
        CommitPhase::Start => (CommitState { phase: CommitPhase::AwaitDiffs, ..s }, CommitAction::ReadDiffs),
        CommitPhase::AwaitDiffs => match e {
            CommitEvent::Diffs { staged_present, unstaged_present } => if staged_present
                || unstaged_present {
                (
                    CommitState {
                        phase: CommitPhase::AwaitCache,
                        dry_run: s.flags.dry_run || !staged_present,
                        ..s
                    },
                    if s.flags.generate_only {
                        CommitAction::LookupCache
                    } else if staged_present {
                        CommitAction::AnnounceStaged
                    } else {
                        CommitAction::AnnounceUnstaged
                    },
                )
            } else {
                (finish, CommitAction::ReportNoChanges)
            },
            _ => (finish, CommitAction::Stop),
        },
        CommitPhase::AwaitCache => match e {
            CommitEvent::Done => (s, CommitAction::LookupCache),
            CommitEvent::CacheHit(hit) => if !hit {
                (
                    CommitState { phase: CommitPhase::AwaitGenerated, ..s },
                    CommitAction::Generate,
                )
            } else if s.flags.generate_only {
                (
                    CommitState { phase: CommitPhase::AwaitShown, should_print: false, ..s },
                    CommitAction::UseCached,
                )
            } else {
                (
                    CommitState { phase: CommitPhase::AwaitRegenerateAnswer, ..s },
                    CommitAction::ShowCachedAskRegenerate,
                )
            },
            _ => (finish, CommitAction::Stop),
        },
        CommitPhase::AwaitRegenerateAnswer => match e {
            CommitEvent::Answer(yes) => if yes {
                (
                    CommitState { phase: CommitPhase::AwaitGenerated, ..s },
                    CommitAction::Generate,
                )
            } else {
                (
                    CommitState { phase: CommitPhase::AwaitShown, should_print: false, ..s },
                    CommitAction::UseCached,
                )
            },
            _ => (finish, CommitAction::Stop),
        },
        CommitPhase::AwaitGenerated => match e {
            CommitEvent::Generated(ok) => if ok {
                spec_after_message(CommitState { should_print: true, ..s })
            } else {
                (finish, CommitAction::Stop)
            },
            _ => (finish, CommitAction::Stop),
        },
        CommitPhase::AwaitShown => match e {
            CommitEvent::Done => if s.should_print {
                spec_before_questions(CommitState { should_print: false, ..s })
            } else {
                spec_after_message(s)
            },
            _ => (finish, CommitAction::Stop),
        },
        CommitPhase::AwaitEditAnswer => match e {
            CommitEvent::Answer(yes) => if yes {
                (CommitState { phase: CommitPhase::AwaitEditor, ..s }, CommitAction::OpenEditor)
            } else {
                (
                    CommitState { phase: CommitPhase::AwaitCommitAnswer, ..s },
                    CommitAction::AskCommit,
                )
            },
            _ => (finish, CommitAction::Stop),
        },
        CommitPhase::AwaitEditor => match e {
            CommitEvent::Edited(edited) => if edited {
                (
                    CommitState { phase: CommitPhase::AwaitEditor, ..s },
                    CommitAction::ShowEditedAndCache,
                )
            } else {
                (
                    CommitState { phase: CommitPhase::AwaitCommitAnswer, ..s },
                    CommitAction::AskCommit,
                )
            },
            CommitEvent::Done => (
                CommitState { phase: CommitPhase::AwaitCommitAnswer, ..s },
                CommitAction::AskCommit,
            ),
            _ => (finish, CommitAction::Stop),
        },
        CommitPhase::AwaitCommitAnswer => match e {
            CommitEvent::Answer(yes) => if yes {
                (finish, CommitAction::Commit)
            } else {
                (finish, CommitAction::ReportCancelled)
            },
            _ => (finish, CommitAction::Stop),
        },
        CommitPhase::Finished => (s, CommitAction::Stop),
    }
}

/// The state a run starts in.
pub fn commit_start(flags: CommitFlags) -> (s: CommitState)
    ensures
        s == spec_commit_start(flags),
{
    CommitState { flags, phase: CommitPhase::Start, dry_run: flags.dry_run, should_print: false }
}

fn after_message(s: CommitState) -> (r: (CommitState, CommitAction))
    ensures
        r == spec_after_message(s),
{
    if s.flags.has_output_file {
        (CommitState { phase: CommitPhase::Finished, ..s }, CommitAction::WriteOutputFile)
    } else if s.flags.generate_only {
        (CommitState { phase: CommitPhase::Finished, ..s }, CommitAction::PrintMessage)
    } else if s.should_print {
        (CommitState { phase: CommitPhase::AwaitShown, ..s }, CommitAction::ShowGenerated)
    } else {
        before_questions(s)
    }
}

fn before_questions(s: CommitState) -> (r: (CommitState, CommitAction))
    ensures
        r == spec_before_questions(s),
{
    if s.dry_run {
        (CommitState { phase: CommitPhase::Finished, ..s }, CommitAction::ShowDryRunHint)
    } else if !s.flags.auto_confirm {
        (CommitState { phase: CommitPhase::AwaitEditAnswer, ..s }, CommitAction::AskEdit)
    } else {
        (CommitState { phase: CommitPhase::Finished, ..s }, CommitAction::Commit)
    }
}

/// One step of `commit`: from the state and what came of the last action, the
/// next state and the next action.
pub fn commit_step(s: CommitState, e: CommitEvent) -> (r: (CommitState, CommitAction))
    ensures
        r == spec_commit_step(s, e),
{
    let finish = CommitState { phase: CommitPhase::Finished, ..s };
    match s.phase {
        CommitPhase::Start => (CommitState { phase: CommitPhase::AwaitDiffs, ..s }, CommitAction::ReadDiffs),
        CommitPhase::AwaitDiffs => match e {
            CommitEvent::Diffs { staged_present, unstaged_present } => if staged_present
                || unstaged_present {
                (
                    CommitState {
                        phase: CommitPhase::AwaitCache,
                        dry_run: s.flags.dry_run || !staged_present,
                        ..s
                    },
                    if s.flags.generate_only {
                        CommitAction::LookupCache
                    } else if staged_present {
                        CommitAction::AnnounceStaged
                    } else {
                        CommitAction::AnnounceUnstaged
                    },
                )
            } else {
                (finish, CommitAction::ReportNoChanges)
            },
            _ => (finish, CommitAction::Stop),
        },
        CommitPhase::AwaitCache => match e {
            CommitEvent::Done => (s, CommitAction::LookupCache),
            CommitEvent::CacheHit(hit) => if !hit {
                (
                    CommitState { phase: CommitPhase::AwaitGenerated, ..s },
                    CommitAction::Generate,
                )
            } else if s.flags.generate_only {
                (
                    CommitState { phase: CommitPhase::AwaitShown, should_print: false, ..s },
                    CommitAction::UseCached,
                )
            } else {
                (
                    CommitState { phase: CommitPhase::AwaitRegenerateAnswer, ..s },
                    CommitAction::ShowCachedAskRegenerate,
                )
            },
            _ => (finish, CommitAction::Stop),
        },
        CommitPhase::AwaitRegenerateAnswer => match e {
            CommitEvent::Answer(yes) => if yes {
                (
                    CommitState { phase: CommitPhase::AwaitGenerated, ..s },
                    CommitAction::Generate,
                )
            } else {
                (
                    CommitState { phase: CommitPhase::AwaitShown, should_print: false, ..s },
                    CommitAction::UseCached,
                )
            },
            _ => (finish, CommitAction::Stop),
        },
        CommitPhase::AwaitGenerated => match e {
            CommitEvent::Generated(ok) => if ok {
                after_message(CommitState { should_print: true, ..s })
            } else {
                (finish, CommitAction::Stop)
            },
            _ => (finish, CommitAction::Stop),
        },
        CommitPhase::AwaitShown => match e {
            CommitEvent::Done => if s.should_print {
                before_questions(CommitState { should_print: false, ..s })
            } else {
                after_message(s)
            },
            _ => (finish, CommitAction::Stop),
        },
        CommitPhase::AwaitEditAnswer => match e {
            CommitEvent::Answer(yes) => if yes {
                (CommitState { phase: CommitPhase::AwaitEditor, ..s }, CommitAction::OpenEditor)
            } else {
                (
                    CommitState { phase: CommitPhase::AwaitCommitAnswer, ..s },
                    CommitAction::AskCommit,
                )
            },
            _ => (finish, CommitAction::Stop),
        },
        CommitPhase::AwaitEditor => match e {
            CommitEvent::Edited(edited) => if edited {
                (
                    CommitState { phase: CommitPhase::AwaitEditor, ..s },
                    CommitAction::ShowEditedAndCache,
                )
            } else {
                (
                    CommitState { phase: CommitPhase::AwaitCommitAnswer, ..s },
                    CommitAction::AskCommit,
                )
            },
            CommitEvent::Done => (
                CommitState { phase: CommitPhase::AwaitCommitAnswer, ..s },
                CommitAction::AskCommit,
            ),
            _ => (finish, CommitAction::Stop),
        },
        CommitPhase::AwaitCommitAnswer => match e {
            CommitEvent::Answer(yes) => if yes {
                (finish, CommitAction::Commit)
            } else {
                (finish, CommitAction::ReportCancelled)
            },
            _ => (finish, CommitAction::Stop),
        },
        CommitPhase::Finished => (s, CommitAction::Stop),
    }
}

/// What holds of every state that a run reaches: a run asked to be a dry run
/// stays one, the questions are asked only in runs that commit after asking,
/// and a fresh message is pending display only in runs that show it.
pub open spec fn commit_inv(s: CommitState) -> bool {
    &&& s.flags.dry_run ==> s.dry_run
    &&& (s.phase == CommitPhase::AwaitEditAnswer || s.phase == CommitPhase::AwaitEditor || s.phase
        == CommitPhase::AwaitCommitAnswer) ==> (!s.dry_run && !s.flags.generate_only
        && !s.flags.has_output_file && !s.flags.auto_confirm)
    &&& s.phase == CommitPhase::AwaitRegenerateAnswer ==> !s.flags.generate_only
    &&& (s.phase == CommitPhase::AwaitShown && s.should_print) ==> (!s.flags.generate_only
        && !s.flags.has_output_file)
}

/// A run starts in a state of the invariant.
pub proof fn lemma_commit_start_inv(flags: CommitFlags)
    ensures
        commit_inv(spec_commit_start(flags)),
{
}

/// Every step keeps the invariant.
pub proof fn lemma_commit_step_inv(s: CommitState, e: CommitEvent)
    requires
        commit_inv(s),
    ensures
        commit_inv(spec_commit_step(s, e).0),
{
}

/// A step never changes the run's options, and a run that took the unstaged
/// diff stays a dry run.
pub proof fn lemma_commit_step_keeps_flags(s: CommitState, e: CommitEvent)
    ensures
        spec_commit_step(s, e).0.flags == s.flags,
        s.phase != CommitPhase::AwaitDiffs ==> spec_commit_step(s, e).0.dry_run == s.dry_run,
{
}

/// A commit is made only when it is no dry run, no message is only being
/// generated or written to a file, and either the configuration confirms or
/// the user has just said yes to committing.
pub proof fn lemma_commit_only_when_confirmed(s: CommitState, e: CommitEvent)
    requires
        commit_inv(s),
    ensures
        spec_commit_step(s, e).1 == CommitAction::Commit ==> {
            &&& !s.dry_run
            &&& !s.flags.generate_only
            &&& !s.flags.has_output_file
            &&& (s.flags.auto_confirm || (s.phase == CommitPhase::AwaitCommitAnswer && e
                == CommitEvent::Answer(true)))
        },
{
}

/// Once a run is over it stays over and does nothing more.
pub proof fn lemma_commit_finished_stays(s: CommitState, e: CommitEvent)
    requires
        s.phase == CommitPhase::Finished,
    ensures
        spec_commit_step(s, e) == (s, CommitAction::Stop),
{
}

/// Generate-only runs never ask the user anything.
pub proof fn lemma_generate_only_never_asks(s: CommitState, e: CommitEvent)
    requires
        commit_inv(s),
        s.flags.generate_only,
    ensures
        spec_commit_step(s, e).1 != CommitAction::ShowCachedAskRegenerate,
        spec_commit_step(s, e).1 != CommitAction::AskEdit,
        spec_commit_step(s, e).1 != CommitAction::AskCommit,
        spec_commit_step(s, e).0.phase != CommitPhase::AwaitEditAnswer,
        spec_commit_step(s, e).0.phase != CommitPhase::AwaitEditor,
        spec_commit_step(s, e).0.phase != CommitPhase::AwaitCommitAnswer,
        spec_commit_step(s, e).0.phase != CommitPhase::AwaitRegenerateAnswer,
{
}

/// A dry run (`--dry-run` or `dry_run_by_default`) never commits: it only
/// shows the message.
pub proof fn lemma_dry_run_never_commits(s: CommitState, e: CommitEvent)
    requires
        commit_inv(s),
        s.flags.dry_run,
    ensures
        spec_commit_step(s, e).1 != CommitAction::Commit,
{
    lemma_commit_only_when_confirmed(s, e);
}

/// The user's answer decides a shown cached message's fate: yes regenerates
/// it, no reuses it.
pub proof fn lemma_regenerate_answer_decides(s: CommitState, yes: bool)
    requires
        s.phase == CommitPhase::AwaitRegenerateAnswer,
    ensures
        yes ==> spec_commit_step(s, CommitEvent::Answer(yes)).1 == CommitAction::Generate
            && spec_commit_step(s, CommitEvent::Answer(yes)).0.phase == CommitPhase::AwaitGenerated,
        !yes ==> spec_commit_step(s, CommitEvent::Answer(yes)).1 == CommitAction::UseCached,
{
}

/// A cached message is reused only when the cache holds one for the diff and
/// either the run only generates or the user declined to regenerate; a new
/// message is generated only on a cache miss or when the user asked for it.
pub proof fn lemma_cache_use(s: CommitState, e: CommitEvent)
    ensures
        spec_commit_step(s, e).1 == CommitAction::UseCached ==> (s.phase == CommitPhase::AwaitCache
            && e == CommitEvent::CacheHit(true) && s.flags.generate_only) || (s.phase
            == CommitPhase::AwaitRegenerateAnswer && e == CommitEvent::Answer(false)),
        spec_commit_step(s, e).1 == CommitAction::Generate ==> (s.phase == CommitPhase::AwaitCache
            && e == CommitEvent::CacheHit(false)) || (s.phase == CommitPhase::AwaitRegenerateAnswer
            && e == CommitEvent::Answer(true)),
{
}

/// A failed generation ends the run: nothing is shown, asked or committed.
pub proof fn lemma_failed_generation_stops(s: CommitState)
    requires
        s.phase == CommitPhase::AwaitGenerated,
    ensures
        spec_commit_step(s, CommitEvent::Generated(false)).1 == CommitAction::Stop,
        spec_commit_step(s, CommitEvent::Generated(false)).0.phase == CommitPhase::Finished,
{
}

} // verus!

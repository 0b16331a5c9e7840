//! The decisions of the `amend` command, as a state machine: the caller
//! performs each action and hands back what came of it.
use vstd::prelude::*;

verus! {

/// The options that a run of `amend` starts with.
#[derive(Clone, Copy, Debug, PartialEq, Eq, Structural)]
pub struct AmendFlags {
    /// Show the message without amending.
    pub dry_run: bool,
    /// Amend without asking (from the configuration).
    pub auto_confirm: bool,
}

/// Where a run of `amend` stands.
#[derive(Clone, Copy, Debug, PartialEq, Eq, Structural)]
pub enum AmendPhase {
    Start,
    /// The staged diff and the diff against the parent commit are being read.
    AwaitDiffs,
    /// What was found is being announced.
    AwaitAnnounced,
    /// The current commit message is being shown.
    AwaitLastMessage,
    /// A new message is being generated.
    AwaitGenerated,
    /// The new message is being shown.
    AwaitShown,
    /// The user decides whether to amend.
    AwaitAmendAnswer,
    Finished,
}

/// The state of a run of `amend`.
#[derive(Clone, Copy, Debug, PartialEq, Eq, Structural)]
pub struct AmendState {
    pub flags: AmendFlags,
    pub phase: AmendPhase,
    /// The last commit plus the working tree differ from the parent commit.
    pub has_changes: bool,
}

/// What came of the last action.
#[derive(Clone, Copy, Debug, PartialEq, Eq, Structural)]
pub enum AmendEvent {
    /// The action is done and yields nothing.
    Done,
    /// Whether the staged diff and the amend diff hold changes.
    Diffs { staged_present: bool, amend_present: bool },
    /// Whether a non-empty message was generated.
    Generated(bool),
    /// The user's answer to the last question.
    Answer(bool),
}

/// What to do next.
#[derive(Clone, Copy, Debug, PartialEq, Eq, Structural)]
pub enum AmendAction {
    /// Read the staged diff and the diff against the parent commit.
    ReadDiffs,
    /// Say that staged changes were found.
    AnnounceStaged,
    /// Say that nothing is staged and the message of the existing commit will be regenerated.
    AnnounceNoStaged,
    /// Say that there is nothing to amend.
    ReportNoChanges,
    /// Show the current commit message and say a new one is being generated.
    ShowLastMessage,
    /// Generate a new message with the model.
    Generate,
    /// Show the new message.
    ShowGenerated,
    /// Say that this was a dry run and how to amend.
    ShowDryRunHint,
    /// Ask whether to amend.
    AskAmend,
    /// Say that the amend was cancelled.
    ReportCancelled,
    /// Amend the last commit with the new message.
    Amend,
    /// Do nothing more.
    Stop,
}

/// The state a run starts in.
pub open spec fn spec_amend_start(flags: AmendFlags) -> AmendState {
    AmendState { flags, phase: AmendPhase::Start, has_changes: false }
}

/// The transition table of `amend`. An event that the phase does not expect
/// ends the run.
pub open spec fn spec_amend_step(s: AmendState, e: AmendEvent) -> (AmendState, AmendAction) {
    let finish = AmendState { phase: AmendPhase::Finished, ..s };
    match s.phase {
        AmendPhase::Start => (AmendState { phase: AmendPhase::AwaitDiffs, ..s }, AmendAction::ReadDiffs),
        AmendPhase::AwaitDiffs => match e {
            AmendEvent::Diffs { staged_present, amend_present } => (
                AmendState { phase: AmendPhase::AwaitAnnounced, has_changes: amend_present, ..s },
                if staged_present {
                    AmendAction::AnnounceStaged
                } else {
                    AmendAction::AnnounceNoStaged
                },
            ),
            _ => (finish, AmendAction::Stop),
        },
        AmendPhase::AwaitAnnounced => match e {
            AmendEvent::Done => if s.has_changes {
                (
                    AmendState { phase: AmendPhase::AwaitLastMessage, ..s },
                    AmendAction::ShowLastMessage,
                )
            } else {
                (finish, AmendAction::ReportNoChanges)
            },
            _ => (finish, AmendAction::Stop),
        },
        AmendPhase::AwaitLastMessage => match e {
            AmendEvent::Done => (AmendState { phase: AmendPhase::AwaitGenerated, ..s }, AmendAction::Generate),
            _ => (finish, AmendAction::Stop),
        },
        AmendPhase::AwaitGenerated => match e {
            AmendEvent::Generated(ok) => if ok {
                (AmendState { phase: AmendPhase::AwaitShown, ..s }, AmendAction::ShowGenerated)
            } else {
                (finish, AmendAction::Stop)
            },
            _ => (finish, AmendAction::Stop),
        },
        AmendPhase::AwaitShown => match e {
            AmendEvent::Done => if s.flags.dry_run {
                (finish, AmendAction::ShowDryRunHint)
            } else if !s.flags.auto_confirm {
                (AmendState { phase: AmendPhase::AwaitAmendAnswer, ..s }, AmendAction::AskAmend)
            } else {
                (finish, AmendAction::Amend)
            },
            _ => (finish, AmendAction::Stop),
        },
        AmendPhase::AwaitAmendAnswer => match e {
            AmendEvent::Answer(yes) => if yes {
                (finish, AmendAction::Amend)
            } else {
                (finish, AmendAction::ReportCancelled)
            },
            _ => (finish, AmendAction::Stop),
        },
        AmendPhase::Finished => (s, AmendAction::Stop),
    }
}

/// The state a run starts in.
pub fn amend_start(flags: AmendFlags) -> (s: AmendState)
    ensures
        s == spec_amend_start(flags),
{
    AmendState { flags, phase: AmendPhase::Start, has_changes: false }
}

/// One step of `amend`: from the state and what came of the last action, the
/// next state and the next action.
pub fn amend_step(s: AmendState, e: AmendEvent) -> (r: (AmendState, AmendAction))
    ensures
        r == spec_amend_step(s, e),
{
    let finish = AmendState { phase: AmendPhase::Finished, ..s };
    match s.phase {
        AmendPhase::Start => (AmendState { phase: AmendPhase::AwaitDiffs, ..s }, AmendAction::ReadDiffs),
        AmendPhase::AwaitDiffs => match e {
            AmendEvent::Diffs { staged_present, amend_present } => (
                AmendState { phase: AmendPhase::AwaitAnnounced, has_changes: amend_present, ..s },
                if staged_present {
                    AmendAction::AnnounceStaged
                } else {
                    AmendAction::AnnounceNoStaged
                },
            ),
            _ => (finish, AmendAction::Stop),
        },
        AmendPhase::AwaitAnnounced => match e {
            AmendEvent::Done => if s.has_changes {
                (
                    AmendState { phase: AmendPhase::AwaitLastMessage, ..s },
                    AmendAction::ShowLastMessage,
                )
            } else {
                (finish, AmendAction::ReportNoChanges)
            },
            _ => (finish, AmendAction::Stop),
        },
        AmendPhase::AwaitLastMessage => match e {
            AmendEvent::Done => (AmendState { phase: AmendPhase::AwaitGenerated, ..s }, AmendAction::Generate),
            _ => (finish, AmendAction::Stop),
        },
        AmendPhase::AwaitGenerated => match e {
            AmendEvent::Generated(ok) => if ok {
                (AmendState { phase: AmendPhase::AwaitShown, ..s }, AmendAction::ShowGenerated)
            } else {
                (finish, AmendAction::Stop)
            },
            _ => (finish, AmendAction::Stop),
        },
        AmendPhase::AwaitShown => match e {
            AmendEvent::Done => if s.flags.dry_run {
                (finish, AmendAction::ShowDryRunHint)
            } else if !s.flags.auto_confirm {
                (AmendState { phase: AmendPhase::AwaitAmendAnswer, ..s }, AmendAction::AskAmend)
            } else {
                (finish, AmendAction::Amend)
            },
            _ => (finish, AmendAction::Stop),
        },
        AmendPhase::AwaitAmendAnswer => match e {
            AmendEvent::Answer(yes) => if yes {
                (finish, AmendAction::Amend)
            } else {
                (finish, AmendAction::ReportCancelled)
            },
            _ => (finish, AmendAction::Stop),
        },
        AmendPhase::Finished => (s, AmendAction::Stop),
    }
}

/// What holds of every state that a run reaches: the user is asked only in
/// runs that may amend after asking.
pub open spec fn amend_inv(s: AmendState) -> bool {
    s.phase == AmendPhase::AwaitAmendAnswer ==> (!s.flags.dry_run && !s.flags.auto_confirm)
}

/// A run starts in a state of the invariant.
pub proof fn lemma_amend_start_inv(flags: AmendFlags)
    ensures
        amend_inv(spec_amend_start(flags)),
{
}

/// Every step keeps the invariant.
pub proof fn lemma_amend_step_inv(s: AmendState, e: AmendEvent)
    requires
        amend_inv(s),
    ensures
        amend_inv(spec_amend_step(s, e).0),
{
}

/// An amend is made only outside a dry run, after a message was generated and
/// shown, and when either the configuration confirms or the user has just
/// said yes.
pub proof fn lemma_amend_only_when_confirmed(s: AmendState, e: AmendEvent)
    requires
        amend_inv(s),
    ensures
        spec_amend_step(s, e).1 == AmendAction::Amend ==> {
            &&& !s.flags.dry_run
            &&& ((s.phase == AmendPhase::AwaitShown && s.flags.auto_confirm && e == AmendEvent::Done)
                || (s.phase == AmendPhase::AwaitAmendAnswer && e == AmendEvent::Answer(true)))
        },
{
}

/// Without changes against the parent commit, no message is generated.
pub proof fn lemma_amend_needs_changes(s: AmendState, e: AmendEvent)
    requires
        s.phase == AmendPhase::AwaitAnnounced,
        !s.has_changes,
    ensures
        spec_amend_step(s, e).0.phase == AmendPhase::Finished,
        spec_amend_step(s, e).1 != AmendAction::Generate,
{
}

/// A failed generation ends the run without amending.
pub proof fn lemma_amend_failed_generation_stops(s: AmendState)
    requires
        s.phase == AmendPhase::AwaitGenerated,
    ensures
        spec_amend_step(s, AmendEvent::Generated(false)).1 == AmendAction::Stop,
        spec_amend_step(s, AmendEvent::Generated(false)).0.phase == AmendPhase::Finished,
{
}

/// A message is shown, and so can be amended with, only once it was
/// generated: a run enters the showing phase only from the generating phase
/// on a successful generation, and an amend comes only from the showing phase
/// or the question that follows it.
pub proof fn lemma_amend_needs_generated_message(s: AmendState, e: AmendEvent)
    ensures
        spec_amend_step(s, e).0.phase == AmendPhase::AwaitShown && s.phase != AmendPhase::AwaitShown
            ==> s.phase == AmendPhase::AwaitGenerated && e == AmendEvent::Generated(true),
        spec_amend_step(s, e).0.phase == AmendPhase::AwaitAmendAnswer && s.phase
            != AmendPhase::AwaitAmendAnswer ==> s.phase == AmendPhase::AwaitShown,
        spec_amend_step(s, e).1 == AmendAction::Amend ==> s.phase == AmendPhase::AwaitShown
            || s.phase == AmendPhase::AwaitAmendAnswer,
{
}

} // verus!

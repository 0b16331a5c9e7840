use ai_commit::commands::amend::{amend_start, amend_step, AmendAction, AmendEvent, AmendFlags, AmendPhase};
use ai_commit::commands::commit::{commit_start, commit_step, CommitAction, CommitEvent, CommitFlags, CommitPhase};
use ai_commit::commands::config::{
    add_makes_default_unasked, default_entry_name, provider_rows, requested_name, resolve_config_path,
    sorted_models, validate_entry_name, EntryNameError,
};
use ai_commit::commands::install::{install_action, InstallAction, HOOK_FILE_MODE, HOOK_SCRIPT};
use ai_commit::commands::uninstall::{uninstall_action, UninstallAction};
use ai_commit::commands::{config_command, parse_command, Command};
use ai_commit::config::settings::{ApiConfig, AppConfig, CommitConfig, PromptConfig};
use ai_commit::dirs::DirsError;

fn run_commit(flags: CommitFlags, events: &[CommitEvent]) -> Vec<CommitAction> {
    let mut s = commit_start(flags);
    let mut actions = vec![];
    let (next, first) = commit_step(s, CommitEvent::Done);
    s = next;
    actions.push(first);
    for e in events {
        let (next, a) = commit_step(s, *e);
        s = next;
        actions.push(a);
    }
    assert_eq!(s.phase, CommitPhase::Finished);
    actions
}

fn run_amend(flags: AmendFlags, events: &[AmendEvent]) -> Vec<AmendAction> {
    let mut s = amend_start(flags);
    let mut actions = vec![];
    let (next, first) = amend_step(s, AmendEvent::Done);
    s = next;
    actions.push(first);
    for e in events {
        let (next, a) = amend_step(s, *e);
        s = next;
        actions.push(a);
    }
    assert_eq!(s.phase, AmendPhase::Finished);
    actions
}

fn flags(generate_only: bool, has_output_file: bool, auto_confirm: bool) -> CommitFlags {
    CommitFlags { generate_only, has_output_file, auto_confirm, dry_run: false }
}

#[test]
fn commands_by_name() {
    assert_eq!(parse_command("install"), Some(Command::Install));
    assert_eq!(parse_command("uninstall"), Some(Command::Uninstall));
    assert_eq!(parse_command("commit"), Some(Command::Commit));
    assert_eq!(parse_command("amend"), Some(Command::Amend));
    assert_eq!(parse_command("config-init"), Some(Command::ConfigInit));
    assert_eq!(parse_command("config-show"), Some(Command::ConfigShow));
    assert_eq!(parse_command("config-edit"), Some(Command::ConfigEdit));
    assert_eq!(parse_command("config-provider-list"), Some(Command::ConfigProviderList));
    assert_eq!(parse_command("config-provider-use"), Some(Command::ConfigProviderUse));
    assert_eq!(parse_command("config-provider-add"), Some(Command::ConfigProviderAdd));
    assert_eq!(parse_command("config-provider-remove"), Some(Command::ConfigProviderRemove));
    assert_eq!(parse_command("Commit"), None);
    assert_eq!(parse_command(""), None);
}

#[test]
fn config_subcommands() {
    assert_eq!(config_command(Some("init"), None), Command::ConfigInit);
    assert_eq!(config_command(Some("edit"), None), Command::ConfigEdit);
    assert_eq!(config_command(Some("show"), None), Command::ConfigShow);
    assert_eq!(config_command(None, None), Command::ConfigShow);
    assert_eq!(config_command(Some("bogus"), None), Command::ConfigShow);
    assert_eq!(config_command(Some("provider"), Some("use")), Command::ConfigProviderUse);
    assert_eq!(config_command(Some("provider"), Some("add")), Command::ConfigProviderAdd);
    assert_eq!(config_command(Some("provider"), Some("remove")), Command::ConfigProviderRemove);
    assert_eq!(config_command(Some("provider"), Some("list")), Command::ConfigProviderList);
    assert_eq!(config_command(Some("provider"), None), Command::ConfigProviderList);
}

#[test]
fn install_and_uninstall_never_touch_foreign_hooks() {
    assert_eq!(install_action(false, None), InstallAction::Write);
    assert_eq!(install_action(true, Some("# ai-commit hook")), InstallAction::Overwrite);
    assert_eq!(install_action(true, Some("#!/bin/sh\nhusky")), InstallAction::SkipForeign);
    assert_eq!(install_action(true, None), InstallAction::SkipForeign);
    assert_eq!(uninstall_action(false, None), UninstallAction::NotFound);
    assert_eq!(uninstall_action(true, Some("ai-commit")), UninstallAction::Remove);
    assert_eq!(uninstall_action(true, Some("other")), UninstallAction::SkipForeign);
    assert_eq!(uninstall_action(true, None), UninstallAction::SkipForeign);
    assert_eq!(HOOK_FILE_MODE, 0o755);
}

#[test]
fn commit_with_staged_changes_asks_then_commits() {
    let actions = run_commit(
        flags(false, false, false),
        &[
            CommitEvent::Diffs { staged_present: true, unstaged_present: true },
            CommitEvent::Done,
            CommitEvent::CacheHit(false),
            CommitEvent::Generated(true),
            CommitEvent::Done,
            CommitEvent::Answer(false),
            CommitEvent::Answer(true),
        ],
    );
    assert_eq!(
        actions,
        vec![
            CommitAction::ReadDiffs,
            CommitAction::AnnounceStaged,
            CommitAction::LookupCache,
            CommitAction::Generate,
            CommitAction::ShowGenerated,
            CommitAction::AskEdit,
            CommitAction::AskCommit,
            CommitAction::Commit,
        ]
    );
}

#[test]
fn commit_without_changes_stops() {
    let actions =
        run_commit(flags(false, false, false), &[CommitEvent::Diffs { staged_present: false, unstaged_present: false }]);
    assert_eq!(actions, vec![CommitAction::ReadDiffs, CommitAction::ReportNoChanges]);
}

#[test]
fn commit_of_unstaged_changes_is_a_dry_run() {
    let actions = run_commit(
        flags(false, false, true),
        &[
            CommitEvent::Diffs { staged_present: false, unstaged_present: true },
            CommitEvent::Done,
            CommitEvent::CacheHit(false),
            CommitEvent::Generated(true),
            CommitEvent::Done,
        ],
    );
    assert_eq!(actions.last(), Some(&CommitAction::ShowDryRunHint));
    assert!(!actions.contains(&CommitAction::Commit));
    assert_eq!(actions[1], CommitAction::AnnounceUnstaged);
}

#[test]
fn commit_reuses_a_cached_message_when_not_regenerating() {
    let actions = run_commit(
        flags(false, false, true),
        &[
            CommitEvent::Diffs { staged_present: true, unstaged_present: false },
            CommitEvent::Done,
            CommitEvent::CacheHit(true),
            CommitEvent::Answer(false),
            CommitEvent::Done,
        ],
    );
    assert_eq!(
        actions,
        vec![
            CommitAction::ReadDiffs,
            CommitAction::AnnounceStaged,
            CommitAction::LookupCache,
            CommitAction::ShowCachedAskRegenerate,
            CommitAction::UseCached,
            CommitAction::Commit,
        ]
    );
}

#[test]
fn generate_only_prints_or_writes_without_asking() {
    let actions = run_commit(
        flags(true, false, false),
        &[
            CommitEvent::Diffs { staged_present: true, unstaged_present: false },
            CommitEvent::CacheHit(false),
            CommitEvent::Generated(true),
        ],
    );
    assert_eq!(
        actions,
        vec![CommitAction::ReadDiffs, CommitAction::LookupCache, CommitAction::Generate, CommitAction::PrintMessage]
    );
    let actions = run_commit(
        flags(true, true, false),
        &[
            CommitEvent::Diffs { staged_present: true, unstaged_present: false },
            CommitEvent::CacheHit(true),
            CommitEvent::Done,
        ],
    );
    assert_eq!(
        actions,
        vec![CommitAction::ReadDiffs, CommitAction::LookupCache, CommitAction::UseCached, CommitAction::WriteOutputFile]
    );
}

#[test]
fn commit_cancelled_and_failed_generation() {
    let actions = run_commit(
        flags(false, false, false),
        &[
            CommitEvent::Diffs { staged_present: true, unstaged_present: false },
            CommitEvent::Done,
            CommitEvent::CacheHit(false),
            CommitEvent::Generated(true),
            CommitEvent::Done,
            CommitEvent::Answer(true),
            CommitEvent::Edited(true),
            CommitEvent::Done,
            CommitEvent::Answer(false),
        ],
    );
    assert_eq!(&actions[5..], &[CommitAction::AskEdit, CommitAction::OpenEditor, CommitAction::ShowEditedAndCache, CommitAction::AskCommit, CommitAction::ReportCancelled]);
    let actions = run_commit(
        flags(false, false, false),
        &[
            CommitEvent::Diffs { staged_present: true, unstaged_present: false },
            CommitEvent::Done,
            CommitEvent::CacheHit(false),
            CommitEvent::Generated(false),
        ],
    );
    assert_eq!(actions.last(), Some(&CommitAction::Stop));
}

#[test]
fn amend_asks_then_amends() {
    let actions = run_amend(
        AmendFlags { dry_run: false, auto_confirm: false },
        &[
            AmendEvent::Diffs { staged_present: true, amend_present: true },
            AmendEvent::Done,
            AmendEvent::Done,
            AmendEvent::Generated(true),
            AmendEvent::Done,
            AmendEvent::Answer(true),
        ],
    );
    assert_eq!(
        actions,
        vec![
            AmendAction::ReadDiffs,
            AmendAction::AnnounceStaged,
            AmendAction::ShowLastMessage,
            AmendAction::Generate,
            AmendAction::ShowGenerated,
            AmendAction::AskAmend,
            AmendAction::Amend,
        ]
    );
}

#[test]
fn amend_without_changes_and_dry_run() {
    let actions = run_amend(
        AmendFlags { dry_run: false, auto_confirm: true },
        &[AmendEvent::Diffs { staged_present: false, amend_present: false }, AmendEvent::Done],
    );
    assert_eq!(actions, vec![AmendAction::ReadDiffs, AmendAction::AnnounceNoStaged, AmendAction::ReportNoChanges]);
    let actions = run_amend(
        AmendFlags { dry_run: true, auto_confirm: true },
        &[
            AmendEvent::Diffs { staged_present: false, amend_present: true },
            AmendEvent::Done,
            AmendEvent::Done,
            AmendEvent::Generated(true),
            AmendEvent::Done,
        ],
    );
    assert_eq!(actions.last(), Some(&AmendAction::ShowDryRunHint));
    assert!(!actions.contains(&AmendAction::Amend));
}

fn entry(name: &str, provider: Option<&str>, model: &str) -> ApiConfig {
    ApiConfig {
        name: Some(name.to_string()),
        provider: provider.map(|p| p.to_string()),
        endpoint: None,
        model: model.to_string(),
        api_key: None,
        max_tokens: None,
        temperature: None,
        protocol: None,
    }
}

fn config_with(default_provider: Option<&str>, providers: Vec<ApiConfig>) -> AppConfig {
    AppConfig {
        default_provider: default_provider.map(|d| d.to_string()),
        providers,
        api: None,
        commit: CommitConfig {
            auto_confirm: false,
            dry_run_by_default: false,
            gpg_sign: None,
            ignore_lock_files: true,
            custom_ignore_patterns: vec![],
            cache_expiry_days: 7,
        },
        prompts: PromptConfig { system_prompt: String::new(), user_prompt_template: String::new() },
    }
}

#[test]
fn config_path_resolution() {
    assert_eq!(resolve_config_path(Some("/tmp/c.toml"), None), Ok("/tmp/c.toml".to_string()));
    assert_eq!(resolve_config_path(None, Some("/h")), Ok("/h/.config/ai-commit/config.toml".to_string()));
    assert_eq!(resolve_config_path(None, None), Err(DirsError::NoHome));
}

#[test]
fn requested_names_are_trimmed() {
    assert_eq!(requested_name(Some("  work ")), Some("work".to_string()));
    assert_eq!(requested_name(Some("   ")), None);
    assert_eq!(requested_name(None), None);
}

#[test]
fn default_entry_names() {
    let existing = vec!["openai".to_string(), "work".to_string()];
    assert_eq!(default_entry_name(&existing, "openai"), "openai-2");
    assert_eq!(default_entry_name(&existing, "ollama"), "ollama");
}

#[test]
fn entry_name_validation() {
    let existing = vec!["openai".to_string()];
    assert!(validate_entry_name("work", &existing).is_ok());
    let empty = validate_entry_name("  ", &existing).expect_err("blank");
    assert!(matches!(empty, EntryNameError::Empty));
    assert_eq!(empty.message(), "Name cannot be empty");
    let dup = validate_entry_name(" openai ", &existing).expect_err("duplicate");
    assert!(matches!(&dup, EntryNameError::Duplicate(n) if n == "openai"));
    assert_eq!(dup.message(), "Provider 'openai' already exists");
}

#[test]
fn provider_listing_marks_the_default() {
    let config = config_with(Some("local"), vec![entry("work", Some("openrouter"), "glm"), entry("local", None, "qwen")]);
    let rows = provider_rows(&config);
    assert_eq!(rows.len(), 2);
    assert!(!rows[0].is_default);
    assert_eq!(rows[0].name, "work");
    assert_eq!(rows[0].model, "glm");
    assert_eq!(rows[0].kind, "openrouter");
    assert!(rows[1].is_default);
    assert_eq!(rows[1].kind, "custom");
    assert!(!add_makes_default_unasked(&config));
    assert!(add_makes_default_unasked(&config_with(None, vec![])));
}

#[test]
fn models_are_offered_sorted() {
    let models: Vec<String> = ["qwen2.5", "gpt-4o", "Zeta", "gpt-4", "gpt-4o", "é", ""].iter().map(|s| s.to_string()).collect();
    let mut expected = models.clone();
    expected.sort();
    assert_eq!(sorted_models(&models), expected);
    assert!(sorted_models(&vec![]).is_empty());
}

#[test]
fn installed_hook_is_recognised_by_install_and_uninstall() {
    assert_eq!(install_action(true, Some(HOOK_SCRIPT)), InstallAction::Overwrite);
    assert_eq!(uninstall_action(true, Some(HOOK_SCRIPT)), UninstallAction::Remove);
    assert!(HOOK_SCRIPT.starts_with("#!/bin/sh\n"));
    assert_eq!(&HOOK_SCRIPT[12..21], "ai-commit");
}

#[test]
fn sorting_sorted_models_changes_nothing() {
    let sorted: Vec<String> = ["a", "b", "b", "c"].iter().map(|s| s.to_string()).collect();
    assert_eq!(sorted_models(&sorted), sorted);
    assert_eq!(sorted_models(&sorted_models(&vec!["z".to_string(), "a".to_string()])), vec!["a".to_string(), "z".to_string()]);
}

#[test]
fn commit_dry_run_with_staged_changes_only_shows_the_message() {
    for auto_confirm in [false, true] {
        let dry = CommitFlags { generate_only: false, has_output_file: false, auto_confirm, dry_run: true };
        let actions = run_commit(
            dry,
            &[
                CommitEvent::Diffs { staged_present: true, unstaged_present: false },
                CommitEvent::Done,
                CommitEvent::CacheHit(false),
                CommitEvent::Generated(true),
                CommitEvent::Done,
            ],
        );
        assert_eq!(
            actions,
            vec![
                CommitAction::ReadDiffs,
                CommitAction::AnnounceStaged,
                CommitAction::LookupCache,
                CommitAction::Generate,
                CommitAction::ShowGenerated,
                CommitAction::ShowDryRunHint,
            ]
        );
    }
}

#[test]
fn commit_dry_run_reusing_cache_never_commits() {
    let dry = CommitFlags { generate_only: false, has_output_file: false, auto_confirm: false, dry_run: true };
    let actions = run_commit(
        dry,
        &[
            CommitEvent::Diffs { staged_present: true, unstaged_present: true },
            CommitEvent::Done,
            CommitEvent::CacheHit(true),
            CommitEvent::Answer(false),
            CommitEvent::Done,
        ],
    );
    assert_eq!(actions.last(), Some(&CommitAction::ShowDryRunHint));
    assert!(!actions.contains(&CommitAction::Commit));
    assert!(!actions.contains(&CommitAction::AskCommit));
}

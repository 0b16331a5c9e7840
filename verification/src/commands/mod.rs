//! The commands of the tool: which one a name selects, and the decisions of each.
pub mod amend;
pub mod commit;
pub mod config;
pub mod install;
pub mod uninstall;

use vstd::prelude::*;

use crate::text::str_eq;

verus! {

/// A command that the tool runs.
#[derive(Clone, Copy, Debug, PartialEq, Eq, Structural)]
pub enum Command {
    Install,
    Uninstall,
    Commit,
    Amend,
    ConfigInit,
    ConfigShow,
    ConfigEdit,
    ConfigProviderList,
    ConfigProviderUse,
    ConfigProviderAdd,
    ConfigProviderRemove,
}

/// The command that a name selects, if any.
pub open spec fn spec_parse_command(name: Seq<char>) -> Option<Command> {
    if name == "install"@ {
        Some(Command::Install)
    } else if name == "uninstall"@ {
        Some(Command::Uninstall)
    } else if name == "commit"@ {
        Some(Command::Commit)
    } else if name == "amend"@ {
        Some(Command::Amend)
    } else if name == "config-init"@ {
        Some(Command::ConfigInit)
    } else if name == "config-show"@ {
        Some(Command::ConfigShow)
    } else if name == "config-edit"@ {
        Some(Command::ConfigEdit)
    } else if name == "config-provider-list"@ {
        Some(Command::ConfigProviderList)
    } else if name == "config-provider-use"@ {
        Some(Command::ConfigProviderUse)
    } else if name == "config-provider-add"@ {
        Some(Command::ConfigProviderAdd)
    } else if name == "config-provider-remove"@ {
        Some(Command::ConfigProviderRemove)
    } else {
        None
    }
}

/// The command that `name` selects; `None` for an unknown command.
pub fn parse_command(name: &str) -> (r: Option<Command>)
    ensures
        r == spec_parse_command(name@),
{
    if str_eq(name, "install") {
        Some(Command::Install)
    } else if str_eq(name, "uninstall") {
        Some(Command::Uninstall)
    } else if str_eq(name, "commit") {
        Some(Command::Commit)
    } else if str_eq(name, "amend") {
        Some(Command::Amend)
    } else if str_eq(name, "config-init") {
        Some(Command::ConfigInit)
    } else if str_eq(name, "config-show") {
        Some(Command::ConfigShow)
    } else if str_eq(name, "config-edit") {
        Some(Command::ConfigEdit)
    } else if str_eq(name, "config-provider-list") {
        Some(Command::ConfigProviderList)
    } else if str_eq(name, "config-provider-use") {
        Some(Command::ConfigProviderUse)
    } else if str_eq(name, "config-provider-add") {
        Some(Command::ConfigProviderAdd)
    } else if str_eq(name, "config-provider-remove") {
        Some(Command::ConfigProviderRemove)
    } else {
        None
    }
}

/// The command that `config <sub> [<provider-sub>]` runs: `show` when no
/// known subcommand is given, and `provider list` when `provider` has no
/// known subcommand.
pub open spec fn spec_config_command(sub: Option<Seq<char>>, provider_sub: Option<Seq<char>>) -> Command {
    match sub {
        Some(s) => if s == "show"@ {
            Command::ConfigShow
        } else if s == "init"@ {
            Command::ConfigInit
        } else if s == "edit"@ {
            Command::ConfigEdit
        } else if s == "provider"@ {
            match provider_sub {
                Some(p) => if p == "list"@ {
                    Command::ConfigProviderList
                } else if p == "use"@ {
                    Command::ConfigProviderUse
                } else if p == "add"@ {
                    Command::ConfigProviderAdd
                } else if p == "remove"@ {
                    Command::ConfigProviderRemove
                } else {
                    Command::ConfigProviderList
                },
                None => Command::ConfigProviderList,
            }
        } else {
            Command::ConfigShow
        },
        None => Command::ConfigShow,
    }
}

/// The command that the `config` subcommand line selects.
pub fn config_command(sub: Option<&str>, provider_sub: Option<&str>) -> (r: Command)
    ensures
        r == spec_config_command(
            match sub {
                Some(s) => Some(s@),
                None => None,
            },
            match provider_sub {
                Some(p) => Some(p@),
                None => None,
            },
        ),
{
    match sub {
        Some(s) => if str_eq(s, "show") {
            Command::ConfigShow
        } else if str_eq(s, "init") {
            Command::ConfigInit
        } else if str_eq(s, "edit") {
            Command::ConfigEdit
        } else if str_eq(s, "provider") {
            match provider_sub {
                Some(p) => if str_eq(p, "list") {
                    Command::ConfigProviderList
                } else if str_eq(p, "use") {
                    Command::ConfigProviderUse
                } else if str_eq(p, "add") {
                    Command::ConfigProviderAdd
                } else if str_eq(p, "remove") {
                    Command::ConfigProviderRemove
                } else {
                    Command::ConfigProviderList
                },
                None => Command::ConfigProviderList,
            }
        } else {
            Command::ConfigShow
        },
        None => Command::ConfigShow,
    }
}

} // verus!

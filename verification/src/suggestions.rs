//! Slash commands: the list offered while typing `/`, and which of them match
//! what has been typed so far.
use vstd::prelude::*;

use crate::search::{seq_contains, str_contains, str_starts_with};
use crate::text::{chars_of, starts_with};

verus! {

broadcast use vstd::string::group_string_axioms;

/// A slash command offered as a completion.
#[derive(Debug, Clone, Copy, PartialEq, Eq)]
pub struct CommandSuggestion {
    pub name: &'static str,
    pub description: &'static str,
    pub template: &'static str,
}

/// Number of slash commands.
pub const COMMAND_COUNT: usize = 21;

/// Name, description and template of the `i`-th slash command.
pub open spec fn command_entry(i: int) -> (Seq<char>, Seq<char>, Seq<char>) {
    if i == 0 {
        ("/plan"@, "Switch to read-only Plan mode"@, "/plan"@)
    } else if i == 1 {
        ("/build"@, "Switch to Build mode with edits enabled"@, "/build"@)
    } else if i == 2 {
        ("/model"@, "Select active model"@, "/model"@)
    } else if i == 3 {
        ("/models"@, "Interactive model picker"@, "/models"@)
    } else if i == 4 {
        ("/models refresh"@, "Refresh provider model list"@, "/models refresh"@)
    } else if i == 5 {
        ("/agents"@, "Interactive agent picker & mode switcher"@, "/agents"@)
    } else if i == 6 {
        ("/themes"@, "Interactive theme selector & color palette"@, "/themes"@)
    } else if i == 7 {
        ("/theme"@, "Switch color theme (e.g. /theme catppuccin)"@, "/theme "@)
    } else if i == 8 {
        ("/keys"@, "Keyboard shortcuts cheatsheet (Ctrl+X)"@, "/keys"@)
    } else if i == 9 {
        ("/status"@, "Show session status & diagnostics"@, "/status"@)
    } else if i == 10 {
        ("/git"@, "Interactive git status, diff viewer & staging"@, "/git"@)
    } else if i == 11 {
        ("/skills"@, "Interactive skill picker & library"@, "/skills"@)
    } else if i == 12 {
        ("/skill "@, "Load and invoke a specific skill"@, "/skill "@)
    } else if i == 13 {
        ("/connect"@, "Connect configured AI provider"@, "/connect"@)
    } else if i == 14 {
        ("/clear"@, "Clear conversation & return to home"@, "/clear"@)
    } else if i == 15 {
        ("/compact"@, "Compact session context"@, "/compact"@)
    } else if i == 16 {
        ("/copy"@, "Copy transcript or session status"@, "/copy"@)
    } else if i == 17 {
        ("/sessions"@, "List saved chat sessions"@, "/sessions"@)
    } else if i == 18 {
        ("/new"@, "Create a new conversation session"@, "/new "@)
    } else if i == 19 {
        ("/help"@, "Show manual, commands & shortcuts"@, "/help"@)
    } else {
        ("/exit"@, "Quit Clawcode workbench"@, "/exit"@)
    }
}

/// Whether `c` is the `i`-th slash command.
pub open spec fn is_command(c: CommandSuggestion, i: int) -> bool {
    c.name@ == command_entry(i).0 && c.description@ == command_entry(i).1 && c.template@
        == command_entry(i).2
}

fn command(name: &'static str, description: &'static str, template: &'static str) -> (c:
    CommandSuggestion)
    ensures
        c.name == name,
        c.description == description,
        c.template == template,
{
    CommandSuggestion { name, description, template }
}

/// The slash commands, in the order they are offered.
pub fn available_commands() -> (v: Vec<CommandSuggestion>)
    ensures
        v@.len() == COMMAND_COUNT,
        forall|i: int| 0 <= i < COMMAND_COUNT ==> is_command(#[trigger] v@[i], i),
{
    let v = vec![
        command("/plan", "Switch to read-only Plan mode", "/plan"),
        command("/build", "Switch to Build mode with edits enabled", "/build"),
        command("/model", "Select active model", "/model"),
        command("/models", "Interactive model picker", "/models"),
        command("/models refresh", "Refresh provider model list", "/models refresh"),
        command("/agents", "Interactive agent picker & mode switcher", "/agents"),
        command("/themes", "Interactive theme selector & color palette", "/themes"),
        command("/theme", "Switch color theme (e.g. /theme catppuccin)", "/theme "),
        command("/keys", "Keyboard shortcuts cheatsheet (Ctrl+X)", "/keys"),
        command("/status", "Show session status & diagnostics", "/status"),
        command("/git", "Interactive git status, diff viewer & staging", "/git"),
        command("/skills", "Interactive skill picker & library", "/skills"),
        command("/skill ", "Load and invoke a specific skill", "/skill "),
        command("/connect", "Connect configured AI provider", "/connect"),
        command("/clear", "Clear conversation & return to home", "/clear"),
        command("/compact", "Compact session context", "/compact"),
        command("/copy", "Copy transcript or session status", "/copy"),
        command("/sessions", "List saved chat sessions", "/sessions"),
        command("/new", "Create a new conversation session", "/new "),
        command("/help", "Show manual, commands & shortcuts", "/help"),
        command("/exit", "Quit Clawcode workbench", "/exit"),
    ];
    assert forall|i: int| 0 <= i < COMMAND_COUNT implies is_command(#[trigger] v@[i], i) by {
        if i == 0 {
        }
    }
    v
}

} // verus!

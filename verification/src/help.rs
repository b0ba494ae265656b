//! The per-tab key reference shown by the help overlay.

use vstd::prelude::*;
use crate::tab::Tab;

verus! {

/// One line of the help overlay.
#[derive(Debug, Clone, Copy)]
pub enum HelpEntry {
    Section(&'static str),
    Key { key: &'static str, desc: &'static str },
    Text(&'static str),
    Blank,
}
/// Help lines of the Profiles tab.
pub open spec fn profiles_help() -> Seq<HelpEntry> {
    seq![
        HelpEntry::Section("Profiles"),
        HelpEntry::Text("One row per agent. Pick a profile to make it the live config."),
        HelpEntry::Blank,
        HelpEntry::Key { key: "↑/↓ or j/k", desc: "change selection within the focused agent" },
        HelpEntry::Key { key: "←/→ or h/l", desc: "move focus between agent rows" },
        HelpEntry::Key { key: "Enter or s", desc: "switch the focused agent to the highlighted profile" },
        HelpEntry::Key { key: "i", desc: "import profiles from whatever is live on disk now" },
        HelpEntry::Blank,
        HelpEntry::Section("Global"),
        HelpEntry::Key { key: "Tab", desc: "next tab" },
        HelpEntry::Key { key: "1–7", desc: "jump to tab N" },
        HelpEntry::Key { key: "L", desc: "open activity log" },
        HelpEntry::Key { key: "?", desc: "this help" },
        HelpEntry::Key { key: "q / Ctrl-C", desc: "quit" },
    ]
}

/// Help lines of the Skills tab.
pub open spec fn skills_help() -> Seq<HelpEntry> {
    seq![
        HelpEntry::Section("Skills"),
        HelpEntry::Text("Library of reusable skills. Each row can be enabled for any subset of agents, synced with one of four sync methods, and originate from either a local path or a GitHub repo."),
        HelpEntry::Blank,
        HelpEntry::Section("Columns"),
        HelpEntry::Key { key: "Agents", desc: "● = enabled, ○ = off, in fixed agent order" },
        HelpEntry::Key { key: "Method", desc: "inherit = use workspace default, symlink, copy, auto = OS-picked" },
        HelpEntry::Key { key: "Source", desc: "local = filesystem install, github = cloned from a repo" },
        HelpEntry::Key { key: "Status", desc: "in sync = hash matches last sync; unknown = never synced" },
        HelpEntry::Blank,
        HelpEntry::Section("Navigation + selection"),
        HelpEntry::Key { key: "↑/↓ or j/k", desc: "move focus" },
        HelpEntry::Key { key: "Space", desc: "toggle selection on focused row" },
        HelpEntry::Key { key: "Ctrl-A", desc: "select all · Ctrl-Shift-A clears" },
        HelpEntry::Key { key: "/", desc: "filter by name/description (Esc clear, Enter keep)" },
        HelpEntry::Blank,
        HelpEntry::Section("Actions"),
        HelpEntry::Key { key: "a", desc: "agent-enablement popup (which agents sync this skill)" },
        HelpEntry::Key { key: "m", desc: "cycle sync method on focused row" },
        HelpEntry::Key { key: "M", desc: "pick sync method from a list (auto / symlink / copy / inherit)" },
        HelpEntry::Key { key: "Enter", desc: "sync focused skill to its enabled agents" },
        HelpEntry::Key { key: "s", desc: "sync all selected" },
        HelpEntry::Key { key: "S", desc: "sync every skill (runs in background for file-backed DBs)" },
        HelpEntry::Key { key: "i", desc: "import skills from live agent dirs on disk" },
        HelpEntry::Key { key: "n", desc: "open the new-skill chooser (presets / search / paste URL)" },
        HelpEntry::Key { key: "Ctrl+F", desc: "live-search skills.sh and install a hit" },
        HelpEntry::Blank,
        HelpEntry::Section("Global"),
        HelpEntry::Key { key: "Tab / 1-7", desc: "tabs · L activity · ? help · q quit" },
    ]
}

/// Help lines of the Mcp tab.
pub open spec fn mcp_help() -> Seq<HelpEntry> {
    seq![
        HelpEntry::Section("MCP servers"),
        HelpEntry::Text("Model Context Protocol servers. Sync writes the enabled-for-agent list into each agent's MCP config file."),
        HelpEntry::Blank,
        HelpEntry::Key { key: "↑/↓", desc: "move focus" },
        HelpEntry::Key { key: "Space", desc: "toggle selection" },
        HelpEntry::Key { key: "/", desc: "filter by name or command" },
        HelpEntry::Key { key: "a", desc: "agent popup" },
        HelpEntry::Key { key: "n", desc: "open the new-MCP chooser (curated presets: fetch / time / memory / …)" },
        HelpEntry::Key { key: "i", desc: "import MCP servers from live configs" },
        HelpEntry::Key { key: "d", desc: "delete focused server" },
        HelpEntry::Key { key: "S", desc: "sync to all agents (background)" },
        HelpEntry::Blank,
        HelpEntry::Section("Global"),
        HelpEntry::Key { key: "Tab / 1-7", desc: "tabs · L activity · ? help · q quit" },
    ]
}

/// Help lines of the Rules tab.
pub open spec fn rules_help() -> Seq<HelpEntry> {
    seq![
        HelpEntry::Section("Rules"),
        HelpEntry::Text("Each rule is a markdown body concatenated into each enabled agent's rule file (AGENTS.md, .cursor/rules/*.mdc, …)."),
        HelpEntry::Blank,
        HelpEntry::Key { key: "↑/↓", desc: "move focus" },
        HelpEntry::Key { key: "Space", desc: "toggle selection" },
        HelpEntry::Key { key: "/", desc: "filter by name or body" },
        HelpEntry::Key { key: "a", desc: "agent popup" },
        HelpEntry::Key { key: "i", desc: "import rules from live configs" },
        HelpEntry::Key { key: "d", desc: "delete focused rule" },
        HelpEntry::Key { key: "S", desc: "sync to all agents (background)" },
        HelpEntry::Blank,
        HelpEntry::Section("Global"),
        HelpEntry::Key { key: "Tab / 1-7", desc: "tabs · L activity · ? help · q quit" },
    ]
}

/// Help lines of the Backup tab.
pub open spec fn backup_help() -> Seq<HelpEntry> {
    seq![
        HelpEntry::Section("Backup"),
        HelpEntry::Text("Local snapshots of ~/.liteconfig, plus optional GitHub mirror."),
        HelpEntry::Blank,
        HelpEntry::Key { key: "n", desc: "create snapshot now" },
        HelpEntry::Key { key: "r", desc: "restore focused snapshot" },
        HelpEntry::Key { key: "p", desc: "push backup to GitHub (requires setup in Settings → GitHub backup)" },
        HelpEntry::Key { key: "d d", desc: "delete focused snapshot (press twice within 2s to confirm)" },
        HelpEntry::Blank,
        HelpEntry::Section("Global"),
        HelpEntry::Key { key: "Tab / 1-7", desc: "tabs · L activity · ? help · q quit" },
    ]
}

/// Help lines of the Sessions tab.
pub open spec fn sessions_help() -> Seq<HelpEntry> {
    seq![
        HelpEntry::Section("Sessions"),
        HelpEntry::Text("(placeholder — session browsing lands in a later release)"),
        HelpEntry::Blank,
        HelpEntry::Section("Global"),
        HelpEntry::Key { key: "Tab / 1-7", desc: "tabs · L activity · ? help · q quit" },
    ]
}

/// Help lines of the Settings tab.
pub open spec fn settings_help() -> Seq<HelpEntry> {
    seq![
        HelpEntry::Section("Settings"),
        HelpEntry::Text("Global preferences. Some rows are interactive; the rest reflect ~/.liteconfig/settings.json."),
        HelpEntry::Blank,
        HelpEntry::Key { key: "t", desc: "cycle theme (builtin + ~/.liteconfig/themes/*.toml)" },
        HelpEntry::Blank,
        HelpEntry::Section("Global"),
        HelpEntry::Key { key: "Tab / 1-7", desc: "tabs · L activity · ? help · q quit" },
    ]
}

/// Help lines of the Plugins tab.
pub open spec fn plugins_help() -> Seq<HelpEntry> {
    seq![
        HelpEntry::Section("Plugins"),
        HelpEntry::Text("Each plugin bundles skills + MCP servers + commands + subagents into a single install."),
        HelpEntry::Blank,
        HelpEntry::Key { key: "n", desc: "install a curated plugin bundle" },
        HelpEntry::Key { key: "d d", desc: "remove the focused plugin (press twice within 2s to confirm)" },
        HelpEntry::Blank,
        HelpEntry::Section("Global"),
        HelpEntry::Key { key: "Tab / 1-7", desc: "tabs · L activity · ? help · q quit" },
    ]
}

/// The help lines of `tab`.
pub open spec fn help_spec(tab: Tab) -> Seq<HelpEntry> {
    match tab {
        Tab::Profiles => profiles_help(),
        Tab::Skills => skills_help(),
        Tab::Mcp => mcp_help(),
        Tab::Rules => rules_help(),
        Tab::Backup => backup_help(),
        Tab::Sessions => sessions_help(),
        Tab::Plugins => plugins_help(),
        Tab::Settings => settings_help(),
    }
}

fn profiles_lines() -> (r: Vec<HelpEntry>)
    ensures
        r@ == profiles_help(),
{
    let r = vec![
        HelpEntry::Section("Profiles"),
        HelpEntry::Text("One row per agent. Pick a profile to make it the live config."),
        HelpEntry::Blank,
        HelpEntry::Key { key: "↑/↓ or j/k", desc: "change selection within the focused agent" },
        HelpEntry::Key { key: "←/→ or h/l", desc: "move focus between agent rows" },
        HelpEntry::Key { key: "Enter or s", desc: "switch the focused agent to the highlighted profile" },
        HelpEntry::Key { key: "i", desc: "import profiles from whatever is live on disk now" },
        HelpEntry::Blank,
        HelpEntry::Section("Global"),
        HelpEntry::Key { key: "Tab", desc: "next tab" },
        HelpEntry::Key { key: "1–7", desc: "jump to tab N" },
        HelpEntry::Key { key: "L", desc: "open activity log" },
        HelpEntry::Key { key: "?", desc: "this help" },
        HelpEntry::Key { key: "q / Ctrl-C", desc: "quit" },
    ];
    assert(r@ =~= profiles_help());
    r
}

fn skills_lines() -> (r: Vec<HelpEntry>)
    ensures
        r@ == skills_help(),
{
    let r = vec![
        HelpEntry::Section("Skills"),
        HelpEntry::Text("Library of reusable skills. Each row can be enabled for any subset of agents, synced with one of four sync methods, and originate from either a local path or a GitHub repo."),
        HelpEntry::Blank,
        HelpEntry::Section("Columns"),
        HelpEntry::Key { key: "Agents", desc: "● = enabled, ○ = off, in fixed agent order" },
        HelpEntry::Key { key: "Method", desc: "inherit = use workspace default, symlink, copy, auto = OS-picked" },
        HelpEntry::Key { key: "Source", desc: "local = filesystem install, github = cloned from a repo" },
        HelpEntry::Key { key: "Status", desc: "in sync = hash matches last sync; unknown = never synced" },
        HelpEntry::Blank,
        HelpEntry::Section("Navigation + selection"),
        HelpEntry::Key { key: "↑/↓ or j/k", desc: "move focus" },
        HelpEntry::Key { key: "Space", desc: "toggle selection on focused row" },
        HelpEntry::Key { key: "Ctrl-A", desc: "select all · Ctrl-Shift-A clears" },
        HelpEntry::Key { key: "/", desc: "filter by name/description (Esc clear, Enter keep)" },
        HelpEntry::Blank,
        HelpEntry::Section("Actions"),
        HelpEntry::Key { key: "a", desc: "agent-enablement popup (which agents sync this skill)" },
        HelpEntry::Key { key: "m", desc: "cycle sync method on focused row" },
        HelpEntry::Key { key: "M", desc: "pick sync method from a list (auto / symlink / copy / inherit)" },
        HelpEntry::Key { key: "Enter", desc: "sync focused skill to its enabled agents" },
        HelpEntry::Key { key: "s", desc: "sync all selected" },
        HelpEntry::Key { key: "S", desc: "sync every skill (runs in background for file-backed DBs)" },
        HelpEntry::Key { key: "i", desc: "import skills from live agent dirs on disk" },
        HelpEntry::Key { key: "n", desc: "open the new-skill chooser (presets / search / paste URL)" },
        HelpEntry::Key { key: "Ctrl+F", desc: "live-search skills.sh and install a hit" },
        HelpEntry::Blank,
        HelpEntry::Section("Global"),
        HelpEntry::Key { key: "Tab / 1-7", desc: "tabs · L activity · ? help · q quit" },
    ];
    assert(r@ =~= skills_help());
    r
}

fn mcp_lines() -> (r: Vec<HelpEntry>)
    ensures
        r@ == mcp_help(),
{
    let r = vec![
        HelpEntry::Section("MCP servers"),
        HelpEntry::Text("Model Context Protocol servers. Sync writes the enabled-for-agent list into each agent's MCP config file."),
        HelpEntry::Blank,
        HelpEntry::Key { key: "↑/↓", desc: "move focus" },
        HelpEntry::Key { key: "Space", desc: "toggle selection" },
        HelpEntry::Key { key: "/", desc: "filter by name or command" },
        HelpEntry::Key { key: "a", desc: "agent popup" },
        HelpEntry::Key { key: "n", desc: "open the new-MCP chooser (curated presets: fetch / time / memory / …)" },
        HelpEntry::Key { key: "i", desc: "import MCP servers from live configs" },
        HelpEntry::Key { key: "d", desc: "delete focused server" },
        HelpEntry::Key { key: "S", desc: "sync to all agents (background)" },
        HelpEntry::Blank,
        HelpEntry::Section("Global"),
        HelpEntry::Key { key: "Tab / 1-7", desc: "tabs · L activity · ? help · q quit" },
    ];
    assert(r@ =~= mcp_help());
    r
}

fn rules_lines() -> (r: Vec<HelpEntry>)
    ensures
        r@ == rules_help(),
{
    let r = vec![
        HelpEntry::Section("Rules"),
        HelpEntry::Text("Each rule is a markdown body concatenated into each enabled agent's rule file (AGENTS.md, .cursor/rules/*.mdc, …)."),
        HelpEntry::Blank,
        HelpEntry::Key { key: "↑/↓", desc: "move focus" },
        HelpEntry::Key { key: "Space", desc: "toggle selection" },
        HelpEntry::Key { key: "/", desc: "filter by name or body" },
        HelpEntry::Key { key: "a", desc: "agent popup" },
        HelpEntry::Key { key: "i", desc: "import rules from live configs" },
        HelpEntry::Key { key: "d", desc: "delete focused rule" },
        HelpEntry::Key { key: "S", desc: "sync to all agents (background)" },
        HelpEntry::Blank,
        HelpEntry::Section("Global"),
        HelpEntry::Key { key: "Tab / 1-7", desc: "tabs · L activity · ? help · q quit" },
    ];
    assert(r@ =~= rules_help());
    r
}

fn backup_lines() -> (r: Vec<HelpEntry>)
    ensures
        r@ == backup_help(),
{
    let r = vec![
        HelpEntry::Section("Backup"),
        HelpEntry::Text("Local snapshots of ~/.liteconfig, plus optional GitHub mirror."),
        HelpEntry::Blank,
        HelpEntry::Key { key: "n", desc: "create snapshot now" },
        HelpEntry::Key { key: "r", desc: "restore focused snapshot" },
        HelpEntry::Key { key: "p", desc: "push backup to GitHub (requires setup in Settings → GitHub backup)" },
        HelpEntry::Key { key: "d d", desc: "delete focused snapshot (press twice within 2s to confirm)" },
        HelpEntry::Blank,
        HelpEntry::Section("Global"),
        HelpEntry::Key { key: "Tab / 1-7", desc: "tabs · L activity · ? help · q quit" },
    ];
    assert(r@ =~= backup_help());
    r
}

fn sessions_lines() -> (r: Vec<HelpEntry>)
    ensures
        r@ == sessions_help(),
{
    let r = vec![
        HelpEntry::Section("Sessions"),
        HelpEntry::Text("(placeholder — session browsing lands in a later release)"),
        HelpEntry::Blank,
        HelpEntry::Section("Global"),
        HelpEntry::Key { key: "Tab / 1-7", desc: "tabs · L activity · ? help · q quit" },
    ];
    assert(r@ =~= sessions_help());
    r
}

fn settings_lines() -> (r: Vec<HelpEntry>)
    ensures
        r@ == settings_help(),
{
    let r = vec![
        HelpEntry::Section("Settings"),
        HelpEntry::Text("Global preferences. Some rows are interactive; the rest reflect ~/.liteconfig/settings.json."),
        HelpEntry::Blank,
        HelpEntry::Key { key: "t", desc: "cycle theme (builtin + ~/.liteconfig/themes/*.toml)" },
        HelpEntry::Blank,
        HelpEntry::Section("Global"),
        HelpEntry::Key { key: "Tab / 1-7", desc: "tabs · L activity · ? help · q quit" },
    ];
    assert(r@ =~= settings_help());
    r
}

fn plugins_lines() -> (r: Vec<HelpEntry>)
    ensures
        r@ == plugins_help(),
{
    let r = vec![
        HelpEntry::Section("Plugins"),
        HelpEntry::Text("Each plugin bundles skills + MCP servers + commands + subagents into a single install."),
        HelpEntry::Blank,
        HelpEntry::Key { key: "n", desc: "install a curated plugin bundle" },
        HelpEntry::Key { key: "d d", desc: "remove the focused plugin (press twice within 2s to confirm)" },
        HelpEntry::Blank,
        HelpEntry::Section("Global"),
        HelpEntry::Key { key: "Tab / 1-7", desc: "tabs · L activity · ? help · q quit" },
    ];
    assert(r@ =~= plugins_help());
    r
}

/// The help overlay's lines for `tab`.
pub fn help_text(tab: Tab) -> (r: Vec<HelpEntry>)
    ensures
        r@ == help_spec(tab),
{
    match tab {
        Tab::Profiles => profiles_lines(),
        Tab::Skills => skills_lines(),
        Tab::Mcp => mcp_lines(),
        Tab::Rules => rules_lines(),
        Tab::Backup => backup_lines(),
        Tab::Sessions => sessions_lines(),
        Tab::Plugins => plugins_lines(),
        Tab::Settings => settings_lines(),
    }
}

} // verus!

//! View state of each tab and of the modal popups.

use vstd::prelude::*;
use crate::model::{McpHit, McpServer, Plugin, Profile, Rule, Skill, SkillHit, Snapshot, SyncMethod};
use crate::tasks::ToastLevel;

verus! {

/// Short-lived user-visible message; it disappears five seconds after
/// `created_at_ms` (host clock, milliseconds).
#[derive(Debug)]
pub struct Toast {
    pub message: String,
    pub level: ToastLevel,
    pub created_at_ms: u64,
}

/// A toast as plain values: text, level and creation time.
pub open spec fn toast_view(t: Toast) -> (Seq<char>, ToastLevel, u64) {
    (t.message@, t.level, t.created_at_ms)
}

/// Profiles of one agent; `selected` is the highlighted row.
#[derive(Debug)]
pub struct ProfileView {
    pub agent: usize,
    pub profiles: Vec<Profile>,
    pub selected: usize,
}

/// Skills tab: rows, multi-selection (ids, no repeats), focused row among the
/// filtered rows, and the `/` filter.
#[derive(Debug)]
pub struct SkillsView {
    pub skills: Vec<Skill>,
    pub selected_ids: Vec<String>,
    pub focused_idx: usize,
    pub filter: String,
    pub filter_editing: bool,
}

/// MCP tab: same shape as the Skills tab.
#[derive(Debug)]
pub struct McpView {
    pub servers: Vec<McpServer>,
    pub selected_ids: Vec<String>,
    pub focused_idx: usize,
    pub filter: String,
    pub filter_editing: bool,
}

/// Rules tab: same shape as the Skills tab; rows are ordered by name.
#[derive(Debug)]
pub struct RulesView {
    pub rules: Vec<Rule>,
    pub selected_ids: Vec<String>,
    pub focused_idx: usize,
    pub filter: String,
    pub filter_editing: bool,
}

/// Plugins tab; `delete_armed_at_ms` is set by a first `d`.
#[derive(Debug)]
pub struct PluginsView {
    pub plugins: Vec<Plugin>,
    pub focused_idx: usize,
    pub delete_armed_at_ms: Option<u64>,
}

/// Backup tab; `delete_armed_at_ms` is set by a first `d`.
#[derive(Debug)]
pub struct BackupView {
    pub snapshots: Vec<Snapshot>,
    pub focused_idx: usize,
    pub delete_armed_at_ms: Option<u64>,
}

/// How long, in milliseconds, a first `d` keeps a delete armed.
pub open spec fn delete_confirm_window_ms() -> u64 {
    2000
}

/// Focusable rows of the Settings tab's GitHub-backup section, in order.
#[derive(Debug, Clone, Copy, PartialEq, Eq, Structural)]
pub enum SettingsRow {
    GhEnabled,
    GhRepoUrl,
    GhBranch,
    GhAutoSync,
}

pub open spec fn settings_row_at(i: int) -> SettingsRow {
    if i == 0 {
        SettingsRow::GhEnabled
    } else if i == 1 {
        SettingsRow::GhRepoUrl
    } else if i == 2 {
        SettingsRow::GhBranch
    } else {
        SettingsRow::GhAutoSync
    }
}

impl SettingsRow {
    pub open spec fn pos(self) -> int {
        match self {
            SettingsRow::GhEnabled => 0,
            SettingsRow::GhRepoUrl => 1,
            SettingsRow::GhBranch => 2,
            SettingsRow::GhAutoSync => 3,
        }
    }

    pub open spec fn is_text_spec(self) -> bool {
        self == SettingsRow::GhRepoUrl || self == SettingsRow::GhBranch
    }

    pub open spec fn label_spec(self) -> Seq<char> {
        match self {
            SettingsRow::GhEnabled => "Enabled"@,
            SettingsRow::GhRepoUrl => "Repo"@,
            SettingsRow::GhBranch => "Branch"@,
            SettingsRow::GhAutoSync => "Auto-sync"@,
        }
    }

    /// The rows in display order.
    pub fn all() -> (r: Vec<SettingsRow>)
        ensures
            r@.len() == 4,
            forall|i: int| 0 <= i < 4 ==> #[trigger] r@[i] == settings_row_at(i),
    {
        let mut v: Vec<SettingsRow> = Vec::new();
        v.push(SettingsRow::GhEnabled);
        v.push(SettingsRow::GhRepoUrl);
        v.push(SettingsRow::GhBranch);
        v.push(SettingsRow::GhAutoSync);
        v
    }

    /// Whether the row holds text (edited with Enter) rather than a flag.
    pub fn is_text(self) -> (b: bool)
        ensures
            b == self.is_text_spec(),
    {
        match self {
            SettingsRow::GhRepoUrl | SettingsRow::GhBranch => true,
            _ => false,
        }
    }

    /// Label shown in front of the row.
    pub fn label(self) -> (r: &'static str)
        ensures
            r@ == self.label_spec(),
    {
        match self {
            SettingsRow::GhEnabled => "Enabled",
            SettingsRow::GhRepoUrl => "Repo",
            SettingsRow::GhBranch => "Branch",
            SettingsRow::GhAutoSync => "Auto-sync",
        }
    }
}

/// Settings tab: the focused row and, while a text row is edited, the
/// working copy of its value.
#[derive(Debug)]
pub struct SettingsView {
    pub focused_row: Option<SettingsRow>,
    pub input_buf: Option<String>,
}

impl SettingsView {
    /// The first row focused, no edit in progress.
    pub fn new() -> (r: SettingsView)
        ensures
            r.focused_row == Some(SettingsRow::GhEnabled),
            r.input_buf is None,
    {
        SettingsView { focused_row: Some(SettingsRow::GhEnabled), input_buf: None }
    }
}

/// The GitHub mirror settings.
#[derive(Debug)]
pub struct GithubBackup {
    pub enabled: bool,
    pub repo_url: String,
    pub branch: String,
    pub auto_sync: bool,
}

/// The part of the persisted settings the front end reads and edits.
#[derive(Debug)]
pub struct Settings {
    /// Slug of the active theme.
    pub theme: String,
    pub github_backup: GithubBackup,
    /// Id of the live profile of each agent, by agent index.
    pub current_profiles: Vec<Option<String>>,
}

/// Which store a committed agent popup writes to.
#[derive(Debug, Clone, Copy, PartialEq, Eq, Structural)]
pub enum AgentPopupTarget {
    Skill,
    Mcp,
    Rule,
}

/// "Which agents should this row sync to?" popup. `enabled` is a working
/// copy of the per-agent flags, by agent index.
#[derive(Debug)]
pub struct AgentPopup {
    pub target: AgentPopupTarget,
    pub row_id: String,
    pub row_name: String,
    pub cursor: usize,
    pub enabled: Vec<bool>,
}

/// Sync-method picker for one skill: `current` is the skill's method when
/// the popup opened, `cursor` the highlighted choice.
#[derive(Debug)]
pub struct MethodPopup {
    pub row_id: String,
    pub row_name: String,
    pub cursor: usize,
    pub current: SyncMethod,
}

/// Which catalog a presets chooser offers.
#[derive(Debug, Clone, Copy, PartialEq, Eq, Structural)]
pub enum PresetsKind {
    SkillRepo,
    Mcp,
    Plugin,
}

/// Curated presets chooser; `total` is the size of the offered catalog.
#[derive(Debug)]
pub struct PresetsPopup {
    pub kind: PresetsKind,
    pub cursor: usize,
    pub total: usize,
}

impl PresetsPopup {
    /// Number of presets offered.
    pub fn len(&self) -> (r: usize)
        ensures
            r == self.total,
    {
        self.total
    }

    /// Whether the chooser offers nothing.
    pub fn is_empty(&self) -> (r: bool)
        ensures
            r == (self.total == 0),
    {
        self.len() == 0
    }
}

/// Keyboard zone of a search popup.
#[derive(Debug, Clone, Copy, PartialEq, Eq, Structural)]
pub enum SearchFocus {
    Query,
    Results,
}

/// Where a search popup's query stands.
#[derive(Debug)]
pub enum SearchStatus {
    Idle,
    Loading,
    Error(String),
    Loaded,
}

/// skills.sh search popup.
#[derive(Debug)]
pub struct SearchSkillsPopup {
    pub query: String,
    pub results: Vec<SkillHit>,
    pub cursor: usize,
    pub status: SearchStatus,
    pub focus: SearchFocus,
}

/// Smithery MCP search popup.
#[derive(Debug)]
pub struct SearchMcpPopup {
    pub query: String,
    pub results: Vec<McpHit>,
    pub cursor: usize,
    pub status: SearchStatus,
    pub focus: SearchFocus,
}

/// What the installer popup shows.
#[derive(Debug)]
pub enum InstallLogMode {
    /// pnpm is needed but missing: ask before installing it.
    ConfirmPnpm { owner_repo: String },
    /// An installer process is streaming (or has just finished); its output
    /// and status live with the host.
    Streaming { title: String },
}

/// Popup that tails an installer; `pending_skill` is the `owner/repo` the
/// user asked for, carried through a pnpm bootstrap.
#[derive(Debug)]
pub struct InstallLogPopup {
    pub mode: InstallLogMode,
    pub pending_skill: Option<String>,
}

/// A curated plugin repository on GitHub.
#[derive(Debug, Clone)]
pub struct PluginPreset {
    pub owner: String,
    pub name: String,
    pub branch: String,
    pub description: String,
}

} // verus!

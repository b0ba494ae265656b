//! Keyboard input: which command a key press stands for in the current
//! state of the app, as a pure classification (the key map), and the
//! dispatch that carries the command out.

use vstd::prelude::*;
use crate::app::App;
use crate::app_actions::{cycle_focused_skill_method_result, delete_focused_mcp_result, delete_focused_rule_result, switch_focused_profile_effect, sync_focused_skill_effect, sync_selected_skills_effect};
use crate::app_backup::{delete_focused_plugin_effect, delete_focused_snapshot_effect, install_plugin_preset_result, move_backup_focus_effect, move_plugin_focus_effect, restore_focused_snapshot_effect};
use crate::app_install::{install_log_confirm_pnpm_result, install_log_decline_pnpm_effect, install_mcp_preset_result, install_skill_repo_preset_result, mcp_search_popup_cancel_effect, mcp_search_popup_enter_effect, mcp_search_popup_move_effect, mcp_search_popup_pop_effect, mcp_search_popup_push_effect, mcp_search_popup_toggle_focus_effect, open_search_mcp_effect, open_search_skills_effect, push_github_backup_effect, search_popup_cancel_effect, search_popup_enter_effect, search_popup_move_effect, search_popup_pop_effect, search_popup_push_effect, search_popup_toggle_focus_effect};
use crate::app_mcp::{jump_mcp_focus_effect, mcp_filter_clear_effect, mcp_filter_close_keep_effect, mcp_filter_open_effect, mcp_filter_pop_effect, mcp_filter_push_effect, move_mcp_focus_effect, open_agent_popup_for_focused_mcp_effect, toggle_focused_mcp_selection_effect};
use crate::app_popups::{agent_popup_cancel_effect, agent_popup_commit_effect, agent_popup_move_effect, agent_popup_set_all_effect, agent_popup_toggle_effect, method_popup_cancel_effect, method_popup_commit_effect, method_popup_move_effect, open_new_mcp_menu_effect, open_new_plugin_menu_effect, open_new_skill_menu_effect, presets_popup_cancel_effect, presets_popup_move_effect};
use crate::app_profiles::{move_agent_focus_effect, move_profile_selection_effect};
use crate::app_rules::{jump_rules_focus_effect, move_rules_focus_effect, open_agent_popup_for_focused_rule_effect, rules_filter_clear_effect, rules_filter_close_keep_effect, rules_filter_open_effect, rules_filter_pop_effect, rules_filter_push_effect, toggle_focused_rule_selection_effect};
use crate::app_settings::{cycle_theme_effect, move_settings_focus_effect, settings_begin_edit_effect, settings_input_cancel_effect, settings_input_commit_effect, settings_input_pop_effect, settings_input_push_effect, settings_toggle_focused_effect};
use crate::app_skills::{jump_skill_focus_effect, clear_skill_selection_effect, move_skill_focus_effect, open_agent_popup_for_focused_effect, open_method_popup_for_focused_effect, select_all_skills_effect, skills_filter_clear_effect, skills_filter_close_keep_effect, skills_filter_open_effect, skills_filter_pop_effect, skills_filter_push_effect, toggle_focused_skill_selection_effect};
use crate::app_backup::{PluginInstall, PluginRemoval};
use crate::app_install::{McpSearchStep, NewMcpServer, RepoAdd, SearchStep};
use crate::app_popups::{AgentCommit, MethodChange};
use crate::app_profiles::{focused_agent_spec, ProfileSwitch};
use crate::app_rules::focused_rule_spec;
use crate::app_settings::SettingsChange;
use crate::tab::{next_tab_spec, prev_tab_spec, sat_add, tab_at, tab_count, Rect, Tab, TabHit};
use crate::text::chars_of;
use crate::views::{BackupView, InstallLogMode, PluginsView, PresetsKind, PresetsPopup};

verus! {

/// The key that was pressed, as far as the key map tells keys apart.
#[derive(Debug, Clone, Copy, PartialEq, Eq, Structural)]
pub enum KeyCode {
    Char(char),
    Enter,
    Esc,
    Tab,
    BackTab,
    Backspace,
    Up,
    Down,
    Left,
    Right,
    /// Any key the map never binds (function keys, Home, …).
    Other,
}

/// The modifiers held with a key: exactly none, exactly Shift, exactly
/// Control, or any other combination.
#[derive(Debug, Clone, Copy, PartialEq, Eq, Structural)]
pub enum Modifiers {
    Plain,
    Shift,
    Control,
    Other,
}

/// A keyboard event; `press` is false for releases and repeats.
#[derive(Debug, Clone, Copy, PartialEq, Eq, Structural)]
pub struct Key {
    pub code: KeyCode,
    pub mods: Modifiers,
    pub press: bool,
}

impl Key {
    /// A press of `code` with `mods`.
    pub fn new(code: KeyCode, mods: Modifiers) -> (k: Key)
        ensures
            k == (Key { code, mods, press: true }),
    {
        Key { code, mods, press: true }
    }
}

/// Which part of the app owns the keyboard: an overlay or popup on top,
/// else an input line being edited, else the active tab.
#[derive(Debug, Clone, Copy, PartialEq, Eq, Structural)]
pub enum Layer {
    Help,
    InstallConfirm,
    InstallStream,
    McpSearch,
    SkillSearch,
    Presets(PresetsKind),
    Agents,
    Method,
    /// The filter line of this list tab is being edited.
    Filter(Tab),
    SettingsInput,
    /// The active tab, and whether the activity overlay is shown.
    Main(Tab, bool),
}

/// Key operations inside a search popup.
#[derive(Debug, Clone, Copy, PartialEq, Eq, Structural)]
pub enum SearchOp {
    Cancel,
    ToggleFocus,
    Up,
    Down,
    Enter,
    Backspace,
    Type(char),
}

/// Key operations inside the presets chooser.
#[derive(Debug, Clone, Copy, PartialEq, Eq, Structural)]
pub enum PresetsOp {
    Up,
    Down,
    Enter,
    Cancel,
    /// Close the chooser and open the live search of the same catalog.
    LiveSearch,
}

/// Key operations inside the agent-enablement popup.
#[derive(Debug, Clone, Copy, PartialEq, Eq, Structural)]
pub enum AgentOp {
    Up,
    Down,
    Toggle,
    All,
    Clear,
    Commit,
    Cancel,
}

/// Key operations inside the sync-method popup.
#[derive(Debug, Clone, Copy, PartialEq, Eq, Structural)]
pub enum MethodOp {
    Up,
    Down,
    Commit,
    Cancel,
}

/// Key operations on a line being edited.
#[derive(Debug, Clone, Copy, PartialEq, Eq, Structural)]
pub enum EditOp {
    Type(char),
    Backspace,
    Enter,
    Esc,
}

/// Profiles tab operations.
#[derive(Debug, Clone, Copy, PartialEq, Eq, Structural)]
pub enum ProfilesOp {
    Up,
    Down,
    Left,
    Right,
    Switch,
    Import,
}

/// Operations of the Skills, MCP and Rules lists.
#[derive(Debug, Clone, Copy, PartialEq, Eq, Structural)]
pub enum ListOp {
    Up,
    Down,
    /// `g`: the first shown row.
    First,
    /// `G`: the last shown row.
    Last,
    ToggleSelect,
    AgentPopup,
    OpenFilter,
    ClearFilter,
    Import,
    SyncAll,
    NewMenu,
    LiveSearch,
    Delete,
    CycleMethod,
    PickMethod,
    SyncSelected,
    SyncFocused,
    SelectAll,
    ClearSelection,
}

/// Plugins tab operations.
#[derive(Debug, Clone, Copy, PartialEq, Eq, Structural)]
pub enum PluginsOp {
    Up,
    Down,
    New,
    Delete,
}

/// Backup tab operations.
#[derive(Debug, Clone, Copy, PartialEq, Eq, Structural)]
pub enum BackupOp {
    Up,
    Down,
    Snapshot,
    Restore,
    Push,
    Delete,
}

/// Settings tab operations.
#[derive(Debug, Clone, Copy, PartialEq, Eq, Structural)]
pub enum SettingsOp {
    Up,
    Down,
    Toggle,
    Edit,
    CycleTheme,
}

/// What a key press means.
#[derive(Debug, Clone, Copy, PartialEq, Eq, Structural)]
pub enum Command {
    /// Not bound here: nothing happens and the key is not consumed.
    Unbound,
    CloseHelp,
    OpenHelp,
    Quit,
    NextTab,
    PrevTab,
    /// Jump to the tab at this display position.
    JumpTab(usize),
    ToggleActivity,
    InstallerYes,
    InstallerNo,
    InstallerClose,
    SkillSearch(SearchOp),
    McpSearch(SearchOp),
    Presets(PresetsOp),
    Agents(AgentOp),
    Method(MethodOp),
    Filter(Tab, EditOp),
    SettingsInput(EditOp),
    Profiles(ProfilesOp),
    List(Tab, ListOp),
    Plugins(PluginsOp),
    Backup(BackupOp),
    Settings(SettingsOp),
}

/// Whether the filter line of the active tab is being edited.
pub open spec fn filter_editing(app: App) -> bool {
    match app.active_tab {
        Tab::Skills => app.skills_view.filter_editing,
        Tab::Mcp => app.mcp_view.filter_editing,
        Tab::Rules => app.rules_view.filter_editing,
        _ => false,
    }
}

/// The layer that owns the keyboard, topmost first: help, the installer
/// popup, the search popups, the presets chooser, the agent and method
/// popups, a filter or settings line being edited, else the active tab.
pub open spec fn layer_of(app: App) -> Layer {
    if app.show_help {
        Layer::Help
    } else if app.install_log_popup is Some {
        if app.install_log_popup->0.mode is ConfirmPnpm {
            Layer::InstallConfirm
        } else {
            Layer::InstallStream
        }
    } else if app.mcp_search_popup is Some {
        Layer::McpSearch
    } else if app.search_popup is Some {
        Layer::SkillSearch
    } else if app.presets_popup is Some {
        Layer::Presets(app.presets_popup->0.kind)
    } else if app.agent_popup is Some {
        Layer::Agents
    } else if app.method_popup is Some {
        Layer::Method
    } else if filter_editing(app) {
        Layer::Filter(app.active_tab)
    } else if app.active_tab == Tab::Settings && app.settings_view.input_buf is Some {
        Layer::SettingsInput
    } else {
        Layer::Main(app.active_tab, app.show_activity)
    }
}

/// `k` is the character `c` with no modifier.
pub open spec fn is_plain(k: Key, c: char) -> bool {
    k.code == KeyCode::Char(c) && k.mods == Modifiers::Plain
}

/// `k` is the key `code` with no modifier.
pub open spec fn is_bare(k: Key, code: KeyCode) -> bool {
    k.code == code && k.mods == Modifiers::Plain
}

/// `k` is a character typed into a line: no modifier but Shift.
pub open spec fn typed_char(k: Key) -> Option<char> {
    match k.code {
        KeyCode::Char(c) => if k.mods == Modifiers::Plain || k.mods == Modifiers::Shift {
            Some(c)
        } else {
            None
        },
        _ => None,
    }
}

/// Up, or `k`, with no modifier.
pub open spec fn is_up(k: Key) -> bool {
    is_bare(k, KeyCode::Up) || is_plain(k, 'k')
}

/// Down, or `j`, with no modifier.
pub open spec fn is_down(k: Key) -> bool {
    is_bare(k, KeyCode::Down) || is_plain(k, 'j')
}

/// Bindings of an edited line.
pub open spec fn edit_op(k: Key) -> Option<EditOp> {
    if k.code == KeyCode::Esc {
        Some(EditOp::Esc)
    } else if k.code == KeyCode::Enter {
        Some(EditOp::Enter)
    } else if k.code == KeyCode::Backspace {
        Some(EditOp::Backspace)
    } else {
        match typed_char(k) {
            Some(c) => Some(EditOp::Type(c)),
            None => None,
        }
    }
}

/// Bindings of a search popup.
pub open spec fn search_op(k: Key) -> Option<SearchOp> {
    if k.code == KeyCode::Esc {
        Some(SearchOp::Cancel)
    } else if k.code == KeyCode::Tab {
        Some(SearchOp::ToggleFocus)
    } else if k.code == KeyCode::Up {
        Some(SearchOp::Up)
    } else if k.code == KeyCode::Down {
        Some(SearchOp::Down)
    } else if k.code == KeyCode::Enter {
        Some(SearchOp::Enter)
    } else if k.code == KeyCode::Backspace {
        Some(SearchOp::Backspace)
    } else {
        match typed_char(k) {
            Some(c) => Some(SearchOp::Type(c)),
            None => None,
        }
    }
}

/// Bindings of the presets chooser; live search exists for the skill and
/// MCP catalogs only.
pub open spec fn presets_op(kind: PresetsKind, k: Key) -> Option<PresetsOp> {
    if is_up(k) {
        Some(PresetsOp::Up)
    } else if is_down(k) {
        Some(PresetsOp::Down)
    } else if k.code == KeyCode::Enter {
        Some(PresetsOp::Enter)
    } else if k.code == KeyCode::Esc {
        Some(PresetsOp::Cancel)
    } else if k.code == KeyCode::Char('f') && k.mods == Modifiers::Control && kind != PresetsKind::Plugin {
        Some(PresetsOp::LiveSearch)
    } else {
        None
    }
}

/// Bindings of the agent-enablement popup.
pub open spec fn agent_op(k: Key) -> Option<AgentOp> {
    if is_up(k) {
        Some(AgentOp::Up)
    } else if is_down(k) {
        Some(AgentOp::Down)
    } else if is_plain(k, ' ') {
        Some(AgentOp::Toggle)
    } else if k.code == KeyCode::Char('a') || k.code == KeyCode::Char('A') {
        Some(AgentOp::All)
    } else if k.code == KeyCode::Char('n') || k.code == KeyCode::Char('N') {
        Some(AgentOp::Clear)
    } else if k.code == KeyCode::Enter {
        Some(AgentOp::Commit)
    } else if k.code == KeyCode::Esc {
        Some(AgentOp::Cancel)
    } else {
        None
    }
}

/// Bindings of the sync-method popup.
pub open spec fn method_op(k: Key) -> Option<MethodOp> {
    if is_up(k) {
        Some(MethodOp::Up)
    } else if is_down(k) {
        Some(MethodOp::Down)
    } else if k.code == KeyCode::Enter {
        Some(MethodOp::Commit)
    } else if k.code == KeyCode::Esc {
        Some(MethodOp::Cancel)
    } else {
        None
    }
}

/// The tab position a digit key `1`..`7` jumps to.
pub open spec fn digit_tab(k: Key) -> Option<usize> {
    match k.code {
        KeyCode::Char(c) => if k.mods == Modifiers::Plain && '1' <= c && (c as int) - ('1' as int) < tab_count() {
            Some(((c as int) - ('1' as int)) as usize)
        } else {
            None
        },
        _ => None,
    }
}

/// Bindings that work on every tab: quit, tab switching, help, and the
/// activity overlay.
pub open spec fn global_command(activity: bool, k: Key) -> Command {
    if is_plain(k, 'q') || (k.mods == Modifiers::Control && (k.code == KeyCode::Char('c') || k.code
        == KeyCode::Char('q'))) {
        Command::Quit
    } else if is_bare(k, KeyCode::Tab) || (k.code == KeyCode::Right && k.mods == Modifiers::Control) {
        Command::NextTab
    } else if k.code == KeyCode::BackTab || (k.code == KeyCode::Left && k.mods == Modifiers::Control) {
        Command::PrevTab
    } else if digit_tab(k) is Some {
        Command::JumpTab(digit_tab(k)->0)
    } else if k.code == KeyCode::Char('?') && (k.mods == Modifiers::Plain || k.mods == Modifiers::Shift) {
        Command::OpenHelp
    } else if k.code == KeyCode::Char('L') && (k.mods == Modifiers::Plain || k.mods == Modifiers::Shift) {
        Command::ToggleActivity
    } else if activity && k.code == KeyCode::Esc {
        Command::ToggleActivity
    } else {
        Command::Unbound
    }
}

/// Bindings of the Profiles tab.
pub open spec fn profiles_op(k: Key) -> Option<ProfilesOp> {
    if is_up(k) {
        Some(ProfilesOp::Up)
    } else if is_down(k) {
        Some(ProfilesOp::Down)
    } else if is_bare(k, KeyCode::Left) || is_plain(k, 'h') {
        Some(ProfilesOp::Left)
    } else if is_bare(k, KeyCode::Right) || is_plain(k, 'l') {
        Some(ProfilesOp::Right)
    } else if is_bare(k, KeyCode::Enter) || is_plain(k, 's') {
        Some(ProfilesOp::Switch)
    } else if is_plain(k, 'i') {
        Some(ProfilesOp::Import)
    } else {
        None
    }
}

/// `S`, or `s` with Shift: sync everything.
pub open spec fn is_sync_all(k: Key) -> bool {
    k.mods == Modifiers::Shift && (k.code == KeyCode::Char('S') || k.code == KeyCode::Char('s'))
}

/// Bindings shared by the Skills, MCP and Rules lists.
pub open spec fn common_list_op(k: Key) -> Option<ListOp> {
    if is_up(k) {
        Some(ListOp::Up)
    } else if is_down(k) {
        Some(ListOp::Down)
    } else if is_plain(k, ' ') {
        Some(ListOp::ToggleSelect)
    } else if is_plain(k, 'a') {
        Some(ListOp::AgentPopup)
    } else if is_plain(k, 'i') {
        Some(ListOp::Import)
    } else if is_sync_all(k) {
        Some(ListOp::SyncAll)
    } else if is_plain(k, '/') {
        Some(ListOp::OpenFilter)
    } else if is_bare(k, KeyCode::Esc) {
        Some(ListOp::ClearFilter)
    } else if is_plain(k, 'g') {
        Some(ListOp::First)
    } else if k.code == KeyCode::Char('G') && (k.mods == Modifiers::Plain || k.mods == Modifiers::Shift) {
        Some(ListOp::Last)
    } else {
        None
    }
}

/// Bindings of one list tab: the shared ones, then the tab's own.
pub open spec fn list_op(tab: Tab, k: Key) -> Option<ListOp> {
    if common_list_op(k) is Some {
        common_list_op(k)
    } else if tab == Tab::Skills {
        if is_plain(k, 'm') {
            Some(ListOp::CycleMethod)
        } else if k.code == KeyCode::Char('M') && (k.mods == Modifiers::Shift || k.mods == Modifiers::Plain) {
            Some(ListOp::PickMethod)
        } else if is_plain(k, 's') {
            Some(ListOp::SyncSelected)
        } else if is_bare(k, KeyCode::Enter) {
            Some(ListOp::SyncFocused)
        } else if k.code == KeyCode::Char('a') && k.mods == Modifiers::Control {
            Some(ListOp::SelectAll)
        } else if k.code == KeyCode::Char('A') && (k.mods == Modifiers::Control || k.mods == Modifiers::Shift) {
            Some(ListOp::ClearSelection)
        } else if is_plain(k, 'n') {
            Some(ListOp::NewMenu)
        } else if k.code == KeyCode::Char('f') && k.mods == Modifiers::Control {
            Some(ListOp::LiveSearch)
        } else {
            None
        }
    } else if tab == Tab::Mcp {
        if is_plain(k, 'd') {
            Some(ListOp::Delete)
        } else if is_plain(k, 'n') {
            Some(ListOp::NewMenu)
        } else if k.code == KeyCode::Char('f') && k.mods == Modifiers::Control {
            Some(ListOp::LiveSearch)
        } else {
            None
        }
    } else if tab == Tab::Rules {
        if is_plain(k, 'd') {
            Some(ListOp::Delete)
        } else {
            None
        }
    } else {
        None
    }
}

/// Bindings of the Plugins tab.
pub open spec fn plugins_op(k: Key) -> Option<PluginsOp> {
    if is_up(k) {
        Some(PluginsOp::Up)
    } else if is_down(k) {
        Some(PluginsOp::Down)
    } else if is_plain(k, 'n') {
        Some(PluginsOp::New)
    } else if is_plain(k, 'd') {
        Some(PluginsOp::Delete)
    } else {
        None
    }
}

/// Bindings of the Backup tab.
pub open spec fn backup_op(k: Key) -> Option<BackupOp> {
    if is_up(k) {
        Some(BackupOp::Up)
    } else if is_down(k) {
        Some(BackupOp::Down)
    } else if is_plain(k, 'n') {
        Some(BackupOp::Snapshot)
    } else if is_plain(k, 'r') {
        Some(BackupOp::Restore)
    } else if is_plain(k, 'p') {
        Some(BackupOp::Push)
    } else if is_plain(k, 'd') {
        Some(BackupOp::Delete)
    } else {
        None
    }
}

/// Bindings of the Settings tab.
pub open spec fn settings_op(k: Key) -> Option<SettingsOp> {
    if is_up(k) {
        Some(SettingsOp::Up)
    } else if is_down(k) {
        Some(SettingsOp::Down)
    } else if is_plain(k, ' ') {
        Some(SettingsOp::Toggle)
    } else if is_bare(k, KeyCode::Enter) {
        Some(SettingsOp::Edit)
    } else if is_plain(k, 't') {
        Some(SettingsOp::CycleTheme)
    } else {
        None
    }
}

/// Bindings of the active tab's body.
pub open spec fn tab_command(tab: Tab, k: Key) -> Command {
    match tab {
        Tab::Profiles => match profiles_op(k) {
            Some(op) => Command::Profiles(op),
            None => Command::Unbound,
        },
        Tab::Skills | Tab::Mcp | Tab::Rules => match list_op(tab, k) {
            Some(op) => Command::List(tab, op),
            None => Command::Unbound,
        },
        Tab::Plugins => match plugins_op(k) {
            Some(op) => Command::Plugins(op),
            None => Command::Unbound,
        },
        Tab::Backup => match backup_op(k) {
            Some(op) => Command::Backup(op),
            None => Command::Unbound,
        },
        Tab::Settings => match settings_op(k) {
            Some(op) => Command::Settings(op),
            None => Command::Unbound,
        },
        Tab::Sessions => Command::Unbound,
    }
}

/// The key map: what pressing `k` means in `layer`. Help closes on any
/// key; a popup or an edited line takes every key it binds and leaves the
/// others unbound; on a tab the global bindings come first.
pub open spec fn command_for(layer: Layer, k: Key) -> Command {
    match layer {
        Layer::Help => Command::CloseHelp,
        Layer::InstallConfirm => if k.code == KeyCode::Char('y') || k.code == KeyCode::Char('Y') {
            Command::InstallerYes
        } else if k.code == KeyCode::Char('n') || k.code == KeyCode::Char('N') {
            Command::InstallerNo
        } else if k.code == KeyCode::Esc {
            Command::InstallerClose
        } else {
            Command::Unbound
        },
        Layer::InstallStream => if k.code == KeyCode::Enter || k.code == KeyCode::Esc {
            Command::InstallerClose
        } else {
            Command::Unbound
        },
        Layer::McpSearch => match search_op(k) {
            Some(op) => Command::McpSearch(op),
            None => Command::Unbound,
        },
        Layer::SkillSearch => match search_op(k) {
            Some(op) => Command::SkillSearch(op),
            None => Command::Unbound,
        },
        Layer::Presets(kind) => match presets_op(kind, k) {
            Some(op) => Command::Presets(op),
            None => Command::Unbound,
        },
        Layer::Agents => match agent_op(k) {
            Some(op) => Command::Agents(op),
            None => Command::Unbound,
        },
        Layer::Method => match method_op(k) {
            Some(op) => Command::Method(op),
            None => Command::Unbound,
        },
        Layer::Filter(tab) => match edit_op(k) {
            Some(op) => Command::Filter(tab, op),
            None => Command::Unbound,
        },
        Layer::SettingsInput => match edit_op(k) {
            Some(op) => Command::SettingsInput(op),
            None => Command::Unbound,
        },
        Layer::Main(tab, activity) => if global_command(activity, k) != Command::Unbound {
            global_command(activity, k)
        } else {
            tab_command(tab, k)
        },
    }
}

/// What a key event means to `app`; releases mean nothing.
pub open spec fn key_command_spec(app: App, k: Key) -> Command {
    if !k.press {
        Command::Unbound
    } else {
        command_for(layer_of(app), k)
    }
}

fn plain_char(k: Key, c: char) -> (b: bool)
    ensures
        b == is_plain(k, c),
{
    k.code == KeyCode::Char(c) && k.mods == Modifiers::Plain
}

fn bare(k: Key, code: KeyCode) -> (b: bool)
    ensures
        b == is_bare(k, code),
{
    k.code == code && k.mods == Modifiers::Plain
}

fn typed(k: Key) -> (r: Option<char>)
    ensures
        r == typed_char(k),
{
    match k.code {
        KeyCode::Char(c) => if k.mods == Modifiers::Plain || k.mods == Modifiers::Shift {
            Some(c)
        } else {
            None
        },
        _ => None,
    }
}

fn up_key(k: Key) -> (b: bool)
    ensures
        b == is_up(k),
{
    bare(k, KeyCode::Up) || plain_char(k, 'k')
}

fn down_key(k: Key) -> (b: bool)
    ensures
        b == is_down(k),
{
    bare(k, KeyCode::Down) || plain_char(k, 'j')
}

fn edit_op_of(k: Key) -> (r: Option<EditOp>)
    ensures
        r == edit_op(k),
{
    if k.code == KeyCode::Esc {
        Some(EditOp::Esc)
    } else if k.code == KeyCode::Enter {
        Some(EditOp::Enter)
    } else if k.code == KeyCode::Backspace {
        Some(EditOp::Backspace)
    } else {
        match typed(k) {
            Some(c) => Some(EditOp::Type(c)),
            None => None,
        }
    }
}

fn search_op_of(k: Key) -> (r: Option<SearchOp>)
    ensures
        r == search_op(k),
{
    if k.code == KeyCode::Esc {
        Some(SearchOp::Cancel)
    } else if k.code == KeyCode::Tab {
        Some(SearchOp::ToggleFocus)
    } else if k.code == KeyCode::Up {
        Some(SearchOp::Up)
    } else if k.code == KeyCode::Down {
        Some(SearchOp::Down)
    } else if k.code == KeyCode::Enter {
        Some(SearchOp::Enter)
    } else if k.code == KeyCode::Backspace {
        Some(SearchOp::Backspace)
    } else {
        match typed(k) {
            Some(c) => Some(SearchOp::Type(c)),
            None => None,
        }
    }
}

fn presets_op_of(kind: PresetsKind, k: Key) -> (r: Option<PresetsOp>)
    ensures
        r == presets_op(kind, k),
{
    if up_key(k) {
        Some(PresetsOp::Up)
    } else if down_key(k) {
        Some(PresetsOp::Down)
    } else if k.code == KeyCode::Enter {
        Some(PresetsOp::Enter)
    } else if k.code == KeyCode::Esc {
        Some(PresetsOp::Cancel)
    } else if k.code == KeyCode::Char('f') && k.mods == Modifiers::Control && kind != PresetsKind::Plugin {
        Some(PresetsOp::LiveSearch)
    } else {
        None
    }
}

fn agent_op_of(k: Key) -> (r: Option<AgentOp>)
    ensures
        r == agent_op(k),
{
    if up_key(k) {
        Some(AgentOp::Up)
    } else if down_key(k) {
        Some(AgentOp::Down)
    } else if plain_char(k, ' ') {
        Some(AgentOp::Toggle)
    } else if k.code == KeyCode::Char('a') || k.code == KeyCode::Char('A') {
        Some(AgentOp::All)
    } else if k.code == KeyCode::Char('n') || k.code == KeyCode::Char('N') {
        Some(AgentOp::Clear)
    } else if k.code == KeyCode::Enter {
        Some(AgentOp::Commit)
    } else if k.code == KeyCode::Esc {
        Some(AgentOp::Cancel)
    } else {
        None
    }
}

fn method_op_of(k: Key) -> (r: Option<MethodOp>)
    ensures
        r == method_op(k),
{
    if up_key(k) {
        Some(MethodOp::Up)
    } else if down_key(k) {
        Some(MethodOp::Down)
    } else if k.code == KeyCode::Enter {
        Some(MethodOp::Commit)
    } else if k.code == KeyCode::Esc {
        Some(MethodOp::Cancel)
    } else {
        None
    }
}

fn digit_tab_of(k: Key) -> (r: Option<usize>)
    ensures
        r == digit_tab(k),
{
    match k.code {
        KeyCode::Char(c) => {
            if k.mods == Modifiers::Plain && '1' <= c && c <= '7' {
                let d = (c as u32) - ('1' as u32);
                Some(d as usize)
            } else {
                None
            }
        },
        _ => None,
    }
}

fn global_command_of(activity: bool, k: Key) -> (c: Command)
    ensures
        c == global_command(activity, k),
{
    if plain_char(k, 'q') || (k.mods == Modifiers::Control && (k.code == KeyCode::Char('c') || k.code
        == KeyCode::Char('q'))) {
        Command::Quit
    } else if bare(k, KeyCode::Tab) || (k.code == KeyCode::Right && k.mods == Modifiers::Control) {
        Command::NextTab
    } else if k.code == KeyCode::BackTab || (k.code == KeyCode::Left && k.mods == Modifiers::Control) {
        Command::PrevTab
    } else if let Some(i) = digit_tab_of(k) {
        Command::JumpTab(i)
    } else if k.code == KeyCode::Char('?') && (k.mods == Modifiers::Plain || k.mods == Modifiers::Shift) {
        Command::OpenHelp
    } else if k.code == KeyCode::Char('L') && (k.mods == Modifiers::Plain || k.mods == Modifiers::Shift) {
        Command::ToggleActivity
    } else if activity && k.code == KeyCode::Esc {
        Command::ToggleActivity
    } else {
        Command::Unbound
    }
}

fn profiles_op_of(k: Key) -> (r: Option<ProfilesOp>)
    ensures
        r == profiles_op(k),
{
    if up_key(k) {
        Some(ProfilesOp::Up)
    } else if down_key(k) {
        Some(ProfilesOp::Down)
    } else if bare(k, KeyCode::Left) || plain_char(k, 'h') {
        Some(ProfilesOp::Left)
    } else if bare(k, KeyCode::Right) || plain_char(k, 'l') {
        Some(ProfilesOp::Right)
    } else if bare(k, KeyCode::Enter) || plain_char(k, 's') {
        Some(ProfilesOp::Switch)
    } else if plain_char(k, 'i') {
        Some(ProfilesOp::Import)
    } else {
        None
    }
}

fn common_list_op_of(k: Key) -> (r: Option<ListOp>)
    ensures
        r == common_list_op(k),
{
    if up_key(k) {
        Some(ListOp::Up)
    } else if down_key(k) {
        Some(ListOp::Down)
    } else if plain_char(k, ' ') {
        Some(ListOp::ToggleSelect)
    } else if plain_char(k, 'a') {
        Some(ListOp::AgentPopup)
    } else if plain_char(k, 'i') {
        Some(ListOp::Import)
    } else if k.mods == Modifiers::Shift && (k.code == KeyCode::Char('S') || k.code == KeyCode::Char('s')) {
        Some(ListOp::SyncAll)
    } else if plain_char(k, '/') {
        Some(ListOp::OpenFilter)
    } else if bare(k, KeyCode::Esc) {
        Some(ListOp::ClearFilter)
    } else if plain_char(k, 'g') {
        Some(ListOp::First)
    } else if k.code == KeyCode::Char('G') && (k.mods == Modifiers::Plain || k.mods == Modifiers::Shift) {
        Some(ListOp::Last)
    } else {
        None
    }
}

fn list_op_of(tab: Tab, k: Key) -> (r: Option<ListOp>)
    ensures
        r == list_op(tab, k),
{
    let common = common_list_op_of(k);
    if common.is_some() {
        return common;
    }
    match tab {
        Tab::Skills => {
            if plain_char(k, 'm') {
                Some(ListOp::CycleMethod)
            } else if k.code == KeyCode::Char('M') && (k.mods == Modifiers::Shift || k.mods == Modifiers::Plain) {
                Some(ListOp::PickMethod)
            } else if plain_char(k, 's') {
                Some(ListOp::SyncSelected)
            } else if bare(k, KeyCode::Enter) {
                Some(ListOp::SyncFocused)
            } else if k.code == KeyCode::Char('a') && k.mods == Modifiers::Control {
                Some(ListOp::SelectAll)
            } else if k.code == KeyCode::Char('A') && (k.mods == Modifiers::Control || k.mods == Modifiers::Shift) {
                Some(ListOp::ClearSelection)
            } else if plain_char(k, 'n') {
                Some(ListOp::NewMenu)
            } else if k.code == KeyCode::Char('f') && k.mods == Modifiers::Control {
                Some(ListOp::LiveSearch)
            } else {
                None
            }
        },
        Tab::Mcp => {
            if plain_char(k, 'd') {
                Some(ListOp::Delete)
            } else if plain_char(k, 'n') {
                Some(ListOp::NewMenu)
            } else if k.code == KeyCode::Char('f') && k.mods == Modifiers::Control {
                Some(ListOp::LiveSearch)
            } else {
                None
            }
        },
        Tab::Rules => {
            if plain_char(k, 'd') {
                Some(ListOp::Delete)
            } else {
                None
            }
        },
        _ => None,
    }
}

fn plugins_op_of(k: Key) -> (r: Option<PluginsOp>)
    ensures
        r == plugins_op(k),
{
    if up_key(k) {
        Some(PluginsOp::Up)
    } else if down_key(k) {
        Some(PluginsOp::Down)
    } else if plain_char(k, 'n') {
        Some(PluginsOp::New)
    } else if plain_char(k, 'd') {
        Some(PluginsOp::Delete)
    } else {
        None
    }
}

fn backup_op_of(k: Key) -> (r: Option<BackupOp>)
    ensures
        r == backup_op(k),
{
    if up_key(k) {
        Some(BackupOp::Up)
    } else if down_key(k) {
        Some(BackupOp::Down)
    } else if plain_char(k, 'n') {
        Some(BackupOp::Snapshot)
    } else if plain_char(k, 'r') {
        Some(BackupOp::Restore)
    } else if plain_char(k, 'p') {
        Some(BackupOp::Push)
    } else if plain_char(k, 'd') {
        Some(BackupOp::Delete)
    } else {
        None
    }
}

fn settings_op_of(k: Key) -> (r: Option<SettingsOp>)
    ensures
        r == settings_op(k),
{
    if up_key(k) {
        Some(SettingsOp::Up)
    } else if down_key(k) {
        Some(SettingsOp::Down)
    } else if plain_char(k, ' ') {
        Some(SettingsOp::Toggle)
    } else if bare(k, KeyCode::Enter) {
        Some(SettingsOp::Edit)
    } else if plain_char(k, 't') {
        Some(SettingsOp::CycleTheme)
    } else {
        None
    }
}

fn tab_command_of(tab: Tab, k: Key) -> (c: Command)
    ensures
        c == tab_command(tab, k),
{
    match tab {
        Tab::Profiles => match profiles_op_of(k) {
            Some(op) => Command::Profiles(op),
            None => Command::Unbound,
        },
        Tab::Skills | Tab::Mcp | Tab::Rules => match list_op_of(tab, k) {
            Some(op) => Command::List(tab, op),
            None => Command::Unbound,
        },
        Tab::Plugins => match plugins_op_of(k) {
            Some(op) => Command::Plugins(op),
            None => Command::Unbound,
        },
        Tab::Backup => match backup_op_of(k) {
            Some(op) => Command::Backup(op),
            None => Command::Unbound,
        },
        Tab::Settings => match settings_op_of(k) {
            Some(op) => Command::Settings(op),
            None => Command::Unbound,
        },
        Tab::Sessions => Command::Unbound,
    }
}

/// The layer that owns the keyboard in `app`.
pub fn layer(app: &App) -> (l: Layer)
    ensures
        l == layer_of(*app),
{
    if app.show_help {
        return Layer::Help;
    }
    match &app.install_log_popup {
        Some(p) => {
            return match &p.mode {
                InstallLogMode::ConfirmPnpm { .. } => Layer::InstallConfirm,
                InstallLogMode::Streaming { .. } => Layer::InstallStream,
            };
        },
        None => {},
    }
    if app.mcp_search_popup.is_some() {
        return Layer::McpSearch;
    }
    if app.search_popup.is_some() {
        return Layer::SkillSearch;
    }
    match &app.presets_popup {
        Some(p) => {
            return Layer::Presets(p.kind);
        },
        None => {},
    }
    if app.agent_popup.is_some() {
        return Layer::Agents;
    }
    if app.method_popup.is_some() {
        return Layer::Method;
    }
    let editing = match app.active_tab {
        Tab::Skills => app.skills_view.filter_editing,
        Tab::Mcp => app.mcp_view.filter_editing,
        Tab::Rules => app.rules_view.filter_editing,
        _ => false,
    };
    if editing {
        return Layer::Filter(app.active_tab);
    }
    if app.active_tab == Tab::Settings && app.settings_view.input_buf.is_some() {
        return Layer::SettingsInput;
    }
    Layer::Main(app.active_tab, app.show_activity)
}

/// What pressing `k` in `layer` means.
pub fn command_in(layer: Layer, k: Key) -> (c: Command)
    ensures
        c == command_for(layer, k),
{
    match layer {
        Layer::Help => Command::CloseHelp,
        Layer::InstallConfirm => if k.code == KeyCode::Char('y') || k.code == KeyCode::Char('Y') {
            Command::InstallerYes
        } else if k.code == KeyCode::Char('n') || k.code == KeyCode::Char('N') {
            Command::InstallerNo
        } else if k.code == KeyCode::Esc {
            Command::InstallerClose
        } else {
            Command::Unbound
        },
        Layer::InstallStream => if k.code == KeyCode::Enter || k.code == KeyCode::Esc {
            Command::InstallerClose
        } else {
            Command::Unbound
        },
        Layer::McpSearch => match search_op_of(k) {
            Some(op) => Command::McpSearch(op),
            None => Command::Unbound,
        },
        Layer::SkillSearch => match search_op_of(k) {
            Some(op) => Command::SkillSearch(op),
            None => Command::Unbound,
        },
        Layer::Presets(kind) => match presets_op_of(kind, k) {
            Some(op) => Command::Presets(op),
            None => Command::Unbound,
        },
        Layer::Agents => match agent_op_of(k) {
            Some(op) => Command::Agents(op),
            None => Command::Unbound,
        },
        Layer::Method => match method_op_of(k) {
            Some(op) => Command::Method(op),
            None => Command::Unbound,
        },
        Layer::Filter(tab) => match edit_op_of(k) {
            Some(op) => Command::Filter(tab, op),
            None => Command::Unbound,
        },
        Layer::SettingsInput => match edit_op_of(k) {
            Some(op) => Command::SettingsInput(op),
            None => Command::Unbound,
        },
        Layer::Main(tab, activity) => {
            let g = global_command_of(activity, k);
            if g != Command::Unbound {
                g
            } else {
                tab_command_of(tab, k)
            }
        },
    }
}

/// What the key event `k` means to `app`.
pub fn key_command(app: &App, k: Key) -> (c: Command)
    ensures
        c == key_command_spec(*app, k),
{
    if !k.press {
        return Command::Unbound;
    }
    command_in(layer(app), k)
}

/// Work a key press leaves to the host: store, file system, network or
/// worker thread. The host carries it out and reports back through the
/// matching `App` method.
#[derive(Debug)]
pub enum Action {
    Nothing,
    SwitchProfile(ProfileSwitch),
    ImportProfiles,
    ImportSkills,
    ImportMcp,
    ImportRules,
    /// Store a skill's cycled sync method (then `cycled_method_stored`).
    StoreMethod(MethodChange),
    /// Store and resync a method picked in the popup (then `method_set_done`).
    ApplyMethod(MethodChange),
    /// Write the agent flags of a row (then `agent_flags_written`).
    ApplyAgents(AgentCommit),
    /// Sync one skill, by id and name.
    SyncSkill(String, String),
    /// Sync the skills with these ids.
    SyncSkills(Vec<String>),
    SyncAllSkills,
    SyncAllMcp,
    SyncAllRules,
    DeleteMcp(String, String),
    DeleteRule(String, String),
    AddMcp(NewMcpServer),
    AddRepo(RepoAdd),
    InstallPlugin(PluginInstall),
    RemovePlugin(PluginRemoval),
    SearchSkills(String),
    SearchMcp(String),
    CreateSnapshot,
    RestoreSnapshot(String),
    DeleteSnapshot(String),
    /// Run the GitHub push queued in the activity log under this id.
    PushBackup(u64),
    /// Save the settings (then `settings_saved`).
    SaveSettings(SettingsChange),
    /// Apply and save this theme (then `theme_saved`).
    SaveTheme(String),
    /// Start the pnpm installer (then `install_log_stream_started`).
    InstallPnpm,
    /// Register this `owner/repo` for a git clone (then `fallback_repo_added`).
    GitCloneFallback(String),
    /// Close the installer popup with its process's outcome (`install_log_close`).
    CloseInstaller,
}

/// The result of handling a key: whether it was consumed, the command it
/// stood for, and the host's part of the work.
#[derive(Debug)]
pub struct KeyOutcome {
    pub consumed: bool,
    pub command: Command,
    pub action: Action,
}

/// Sizes below which every key can be handled without overflow: lists and
/// cursors stay within `i32` (the wrap-around moves count in it) and the
/// activity log can hand out another id.
pub open spec fn within_limits(app: App) -> bool {
    &&& app.tasks.next_id < u64::MAX
    &&& app.skills_view.skills@.len() <= i32::MAX && app.skills_view.focused_idx < i32::MAX
    &&& app.mcp_view.servers@.len() <= i32::MAX && app.mcp_view.focused_idx < i32::MAX
    &&& app.rules_view.rules@.len() <= i32::MAX && app.rules_view.focused_idx < i32::MAX
    &&& app.plugins_view.plugins@.len() <= i32::MAX && app.plugins_view.focused_idx < i32::MAX
    &&& app.backup_view.snapshots@.len() <= i32::MAX && app.backup_view.focused_idx < i32::MAX
    &&& app.agents@.len() <= i32::MAX && app.focused_agent_idx < i32::MAX
    &&& ({
        let a = focused_agent_spec(app);
        a < app.profile_views@.len() ==> app.profile_views@[a as int].profiles@.len() <= i32::MAX
            && app.profile_views@[a as int].selected < i32::MAX
    })
    &&& (app.agent_popup matches Some(p) ==> app.agents@.len() > 0 && p.cursor < i32::MAX)
    &&& (app.method_popup matches Some(p) ==> p.cursor < i32::MAX)
    &&& (app.presets_popup matches Some(p) ==> p.total <= i32::MAX && p.cursor < i32::MAX)
    &&& (app.search_popup matches Some(p) ==> p.results@.len() <= i32::MAX && p.cursor < i32::MAX)
    &&& (app.mcp_search_popup matches Some(p) ==> p.results@.len() <= i32::MAX && p.cursor < i32::MAX)
}

const LIMIT: usize = 0x7fff_ffff;

fn small(n: usize) -> (b: bool)
    ensures
        b == (n <= i32::MAX),
{
    n <= LIMIT
}

fn below(n: usize) -> (b: bool)
    ensures
        b == (n < i32::MAX),
{
    n < LIMIT
}

impl App {
    /// Whether the app is `within_limits`, for a host to test before
    /// handing it a key.
    pub fn in_limits(&self) -> (b: bool)
        ensures
            b == within_limits(*self),
    {
        if self.tasks.next_id == u64::MAX {
            return false;
        }
        if !(small(self.skills_view.skills.len()) && below(self.skills_view.focused_idx)) {
            return false;
        }
        if !(small(self.mcp_view.servers.len()) && below(self.mcp_view.focused_idx)) {
            return false;
        }
        if !(small(self.rules_view.rules.len()) && below(self.rules_view.focused_idx)) {
            return false;
        }
        if !(small(self.plugins_view.plugins.len()) && below(self.plugins_view.focused_idx)) {
            return false;
        }
        if !(small(self.backup_view.snapshots.len()) && below(self.backup_view.focused_idx)) {
            return false;
        }
        if !(small(self.agents.len()) && below(self.focused_agent_idx)) {
            return false;
        }
        let a = self.focused_agent();
        if a < self.profile_views.len() {
            let v = &self.profile_views[a];
            if !(small(v.profiles.len()) && below(v.selected)) {
                return false;
            }
        }
        match &self.agent_popup {
            Some(p) => if self.agents.len() == 0 || !below(p.cursor) {
                return false;
            },
            None => {},
        }
        match &self.method_popup {
            Some(p) => if !below(p.cursor) {
                return false;
            },
            None => {},
        }
        match &self.presets_popup {
            Some(p) => if !(small(p.total) && below(p.cursor)) {
                return false;
            },
            None => {},
        }
        match &self.search_popup {
            Some(p) => if !(small(p.results.len()) && below(p.cursor)) {
                return false;
            },
            None => {},
        }
        match &self.mcp_search_popup {
            Some(p) => if !(small(p.results.len()) && below(p.cursor)) {
                return false;
            },
            None => {},
        }
        true
    }
}

/// What a key in the skill search popup does (`a` is what is handed back).
pub open spec fn skill_search_op_effect(before: App, after: App, op: SearchOp, a: Action) -> bool {
    match op {
        SearchOp::Cancel => search_popup_cancel_effect(before, after) && a is Nothing,
        SearchOp::ToggleFocus => search_popup_toggle_focus_effect(before, after) && a is Nothing,
        SearchOp::Up => search_popup_move_effect(before, after, -1i32) && a is Nothing,
        SearchOp::Down => search_popup_move_effect(before, after, 1) && a is Nothing,
        SearchOp::Backspace => search_popup_pop_effect(before, after) && a is Nothing,
        SearchOp::Type(c) => search_popup_push_effect(before, after, c) && a is Nothing,
        SearchOp::Enter => match a {
            Action::Nothing => search_popup_enter_effect(before, after, SearchStep::Nothing),
            Action::SearchSkills(q) => search_popup_enter_effect(before, after, SearchStep::Query(q)),
            Action::AddRepo(add) => search_popup_enter_effect(before, after, SearchStep::Install(add)),
            _ => false,
        },
    }
}

/// What a key in the MCP search popup does (`a` is what is handed back).
pub open spec fn mcp_search_op_effect(before: App, after: App, op: SearchOp, a: Action) -> bool {
    match op {
        SearchOp::Cancel => mcp_search_popup_cancel_effect(before, after) && a is Nothing,
        SearchOp::ToggleFocus => mcp_search_popup_toggle_focus_effect(before, after) && a is Nothing,
        SearchOp::Up => mcp_search_popup_move_effect(before, after, -1i32) && a is Nothing,
        SearchOp::Down => mcp_search_popup_move_effect(before, after, 1) && a is Nothing,
        SearchOp::Backspace => mcp_search_popup_pop_effect(before, after) && a is Nothing,
        SearchOp::Type(c) => mcp_search_popup_push_effect(before, after, c) && a is Nothing,
        SearchOp::Enter => match a {
            Action::Nothing => mcp_search_popup_enter_effect(before, after, McpSearchStep::Nothing),
            Action::SearchMcp(q) => mcp_search_popup_enter_effect(before, after, McpSearchStep::Query(q)),
            Action::AddMcp(s) => mcp_search_popup_enter_effect(before, after, McpSearchStep::Install(s)),
            _ => false,
        },
    }
}

/// What a key in the presets chooser does (`a` is what is handed back):
/// Enter closes the chooser and hands over the entry under the cursor,
/// Ctrl+F closes it and opens the live search of the same catalog.
pub open spec fn presets_op_effect(before: App, after: App, op: PresetsOp, a: Action) -> bool {
    let closed = App { presets_popup: None, ..before };
    match op {
        PresetsOp::Up => presets_popup_move_effect(before, after, -1i32) && a is Nothing,
        PresetsOp::Down => presets_popup_move_effect(before, after, 1) && a is Nothing,
        PresetsOp::Cancel => presets_popup_cancel_effect(before, after) && a is Nothing,
        PresetsOp::LiveSearch => a is Nothing && match before.presets_popup {
            Some(p) => match p.kind {
                PresetsKind::Mcp => open_search_mcp_effect(closed, after),
                PresetsKind::SkillRepo => open_search_skills_effect(closed, after),
                PresetsKind::Plugin => after == closed,
            },
            None => after == closed,
        },
        PresetsOp::Enter => after == closed && match before.presets_popup {
            Some(p) => match p.kind {
                PresetsKind::Mcp => match a {
                    Action::AddMcp(s) => install_mcp_preset_result(closed, p.cursor, Some(s)),
                    Action::Nothing => install_mcp_preset_result(closed, p.cursor, None),
                    _ => false,
                },
                PresetsKind::SkillRepo => match a {
                    Action::AddRepo(add) => install_skill_repo_preset_result(closed, p.cursor, Some(add)),
                    Action::Nothing => install_skill_repo_preset_result(closed, p.cursor, None),
                    _ => false,
                },
                PresetsKind::Plugin => match a {
                    Action::InstallPlugin(q) => install_plugin_preset_result(closed, p.cursor, Some(q)),
                    Action::Nothing => install_plugin_preset_result(closed, p.cursor, None),
                    _ => false,
                },
            },
            None => a is Nothing,
        },
    }
}

/// What a key in the agent-enablement popup does (`a` is what is handed
/// back).
pub open spec fn agents_op_effect(before: App, after: App, op: AgentOp, a: Action) -> bool {
    match op {
        AgentOp::Up => agent_popup_move_effect(before, after, -1i32) && a is Nothing,
        AgentOp::Down => agent_popup_move_effect(before, after, 1) && a is Nothing,
        AgentOp::Toggle => agent_popup_toggle_effect(before, after) && a is Nothing,
        AgentOp::All => agent_popup_set_all_effect(before, after, true) && a is Nothing,
        AgentOp::Clear => agent_popup_set_all_effect(before, after, false) && a is Nothing,
        AgentOp::Cancel => agent_popup_cancel_effect(before, after) && a is Nothing,
        AgentOp::Commit => match a {
            Action::ApplyAgents(c) => agent_popup_commit_effect(before, after, Some(c)),
            Action::Nothing => agent_popup_commit_effect(before, after, None),
            _ => false,
        },
    }
}

/// What a key in the sync-method popup does (`a` is what is handed back).
pub open spec fn method_op_effect(before: App, after: App, op: MethodOp, a: Action) -> bool {
    match op {
        MethodOp::Up => method_popup_move_effect(before, after, -1i32) && a is Nothing,
        MethodOp::Down => method_popup_move_effect(before, after, 1) && a is Nothing,
        MethodOp::Cancel => method_popup_cancel_effect(before, after) && a is Nothing,
        MethodOp::Commit => match a {
            Action::ApplyMethod(c) => method_popup_commit_effect(before, after, Some(c)),
            Action::Nothing => method_popup_commit_effect(before, after, None),
            _ => false,
        },
    }
}

/// What a key does to the filter line being edited on `tab`.
pub open spec fn filter_op_effect(before: App, after: App, tab: Tab, op: EditOp) -> bool {
    match tab {
        Tab::Skills => match op {
            EditOp::Type(c) => skills_filter_push_effect(before, after, c),
            EditOp::Backspace => skills_filter_pop_effect(before, after),
            EditOp::Enter => skills_filter_close_keep_effect(before, after),
            EditOp::Esc => skills_filter_clear_effect(before, after),
        },
        Tab::Mcp => match op {
            EditOp::Type(c) => mcp_filter_push_effect(before, after, c),
            EditOp::Backspace => mcp_filter_pop_effect(before, after),
            EditOp::Enter => mcp_filter_close_keep_effect(before, after),
            EditOp::Esc => mcp_filter_clear_effect(before, after),
        },
        Tab::Rules => match op {
            EditOp::Type(c) => rules_filter_push_effect(before, after, c),
            EditOp::Backspace => rules_filter_pop_effect(before, after),
            EditOp::Enter => rules_filter_close_keep_effect(before, after),
            EditOp::Esc => rules_filter_clear_effect(before, after),
        },
        _ => after == before,
    }
}

/// What a key does to the settings value being edited (`a` is what is
/// handed back).
pub open spec fn settings_input_op_effect(before: App, after: App, op: EditOp, a: Action) -> bool {
    match op {
        EditOp::Type(c) => settings_input_push_effect(before, after, c) && a is Nothing,
        EditOp::Backspace => settings_input_pop_effect(before, after) && a is Nothing,
        EditOp::Esc => settings_input_cancel_effect(before, after) && a is Nothing,
        EditOp::Enter => match a {
            Action::SaveSettings(c) => settings_input_commit_effect(before, after, Some(c)),
            Action::Nothing => settings_input_commit_effect(before, after, None),
            _ => false,
        },
    }
}

/// What a key on the Profiles tab does (`a` is what is handed back).
pub open spec fn profiles_op_effect(before: App, after: App, op: ProfilesOp, a: Action) -> bool {
    match op {
        ProfilesOp::Up => move_profile_selection_effect(before, after, -1i32) && a is Nothing,
        ProfilesOp::Down => move_profile_selection_effect(before, after, 1) && a is Nothing,
        ProfilesOp::Left => move_agent_focus_effect(before, after, -1i32) && a is Nothing,
        ProfilesOp::Right => move_agent_focus_effect(before, after, 1) && a is Nothing,
        ProfilesOp::Import => after == before && a is ImportProfiles,
        ProfilesOp::Switch => match a {
            Action::SwitchProfile(sw) => switch_focused_profile_effect(before, after, Some(sw)),
            Action::Nothing => switch_focused_profile_effect(before, after, None),
            _ => false,
        },
    }
}

/// What a key on the Skills list does (`a` is what is handed back).
pub open spec fn skills_op_effect(before: App, after: App, op: ListOp, a: Action) -> bool {
    match op {
        ListOp::First => jump_skill_focus_effect(before, after, false) && a is Nothing,
        ListOp::Last => jump_skill_focus_effect(before, after, true) && a is Nothing,
        ListOp::Up => move_skill_focus_effect(before, after, -1i32) && a is Nothing,
        ListOp::Down => move_skill_focus_effect(before, after, 1) && a is Nothing,
        ListOp::ToggleSelect => toggle_focused_skill_selection_effect(before, after) && a is Nothing,
        ListOp::AgentPopup => open_agent_popup_for_focused_effect(before, after) && a is Nothing,
        ListOp::OpenFilter => skills_filter_open_effect(before, after) && a is Nothing,
        ListOp::ClearFilter => skills_filter_clear_effect(before, after) && a is Nothing,
        ListOp::NewMenu => open_new_skill_menu_effect(before, after) && a is Nothing,
        ListOp::LiveSearch => open_search_skills_effect(before, after) && a is Nothing,
        ListOp::PickMethod => open_method_popup_for_focused_effect(before, after) && a is Nothing,
        ListOp::SelectAll => select_all_skills_effect(before, after) && a is Nothing,
        ListOp::ClearSelection => clear_skill_selection_effect(before, after) && a is Nothing,
        ListOp::Import => after == before && a is ImportSkills,
        ListOp::SyncAll => after == before && a is SyncAllSkills,
        ListOp::CycleMethod => after == before && match a {
            Action::StoreMethod(c) => cycle_focused_skill_method_result(before, Some(c)),
            Action::Nothing => cycle_focused_skill_method_result(before, None),
            _ => false,
        },
        ListOp::SyncSelected => match a {
            Action::SyncSkills(ids) => sync_selected_skills_effect(before, after, Some(ids)),
            Action::Nothing => sync_selected_skills_effect(before, after, None),
            _ => false,
        },
        ListOp::SyncFocused => match a {
            Action::SyncSkill(id, name) => sync_focused_skill_effect(before, after, Some((id, name))),
            Action::Nothing => sync_focused_skill_effect(before, after, None),
            _ => false,
        },
        ListOp::Delete => after == before && a is Nothing,
    }
}

/// What a key on the MCP list does (`a` is what is handed back).
pub open spec fn mcp_op_effect(before: App, after: App, op: ListOp, a: Action) -> bool {
    match op {
        ListOp::First => jump_mcp_focus_effect(before, after, false) && a is Nothing,
        ListOp::Last => jump_mcp_focus_effect(before, after, true) && a is Nothing,
        ListOp::Up => move_mcp_focus_effect(before, after, -1i32) && a is Nothing,
        ListOp::Down => move_mcp_focus_effect(before, after, 1) && a is Nothing,
        ListOp::ToggleSelect => toggle_focused_mcp_selection_effect(before, after) && a is Nothing,
        ListOp::AgentPopup => open_agent_popup_for_focused_mcp_effect(before, after) && a is Nothing,
        ListOp::OpenFilter => mcp_filter_open_effect(before, after) && a is Nothing,
        ListOp::ClearFilter => mcp_filter_clear_effect(before, after) && a is Nothing,
        ListOp::NewMenu => open_new_mcp_menu_effect(before, after) && a is Nothing,
        ListOp::LiveSearch => open_search_mcp_effect(before, after) && a is Nothing,
        ListOp::Import => after == before && a is ImportMcp,
        ListOp::SyncAll => after == before && a is SyncAllMcp,
        ListOp::Delete => after == before && match a {
            Action::DeleteMcp(id, name) => delete_focused_mcp_result(before, Some((id, name))),
            Action::Nothing => delete_focused_mcp_result(before, None),
            _ => false,
        },
        _ => after == before && a is Nothing,
    }
}

/// What a key on the Rules list does (`a` is what is handed back).
pub open spec fn rules_op_effect(before: App, after: App, op: ListOp, a: Action) -> bool {
    match op {
        ListOp::First => jump_rules_focus_effect(before, after, false) && a is Nothing,
        ListOp::Last => jump_rules_focus_effect(before, after, true) && a is Nothing,
        ListOp::Up => move_rules_focus_effect(before, after, -1i32) && a is Nothing,
        ListOp::Down => move_rules_focus_effect(before, after, 1) && a is Nothing,
        ListOp::ToggleSelect => toggle_focused_rule_selection_effect(before, after) && a is Nothing,
        ListOp::AgentPopup => open_agent_popup_for_focused_rule_effect(before, after) && a is Nothing,
        ListOp::OpenFilter => rules_filter_open_effect(before, after) && a is Nothing,
        ListOp::ClearFilter => rules_filter_clear_effect(before, after) && a is Nothing,
        ListOp::Import => after == before && a is ImportRules,
        ListOp::SyncAll => after == before && a is SyncAllRules,
        ListOp::Delete => after == before && match a {
            Action::DeleteRule(id, name) => delete_focused_rule_result(before, Some((id, name))),
            Action::Nothing => delete_focused_rule_result(before, None),
            _ => false,
        },
        _ => after == before && a is Nothing,
    }
}

/// What a key on the Plugins tab does (`a` is what is handed back): any
/// key but `d` first disarms a pending delete.
pub open spec fn plugins_op_effect(before: App, after: App, op: PluginsOp, a: Action) -> bool {
    let disarmed = App { plugins_view: PluginsView { delete_armed_at_ms: None, ..before.plugins_view }, ..before };
    match op {
        PluginsOp::Delete => match a {
            Action::RemovePlugin(p) => delete_focused_plugin_effect(before, after, Some(p)),
            Action::Nothing => delete_focused_plugin_effect(before, after, None),
            _ => false,
        },
        PluginsOp::Up => move_plugin_focus_effect(disarmed, after, -1i32) && a is Nothing,
        PluginsOp::Down => move_plugin_focus_effect(disarmed, after, 1) && a is Nothing,
        PluginsOp::New => open_new_plugin_menu_effect(disarmed, after) && a is Nothing,
    }
}

/// What a key on the Backup tab does (`a` is what is handed back): any key
/// but `d` first disarms a pending delete.
pub open spec fn backup_op_effect(before: App, after: App, op: BackupOp, a: Action) -> bool {
    let disarmed = App { backup_view: BackupView { delete_armed_at_ms: None, ..before.backup_view }, ..before };
    match op {
        BackupOp::Delete => match a {
            Action::DeleteSnapshot(ts) => delete_focused_snapshot_effect(before, after, Some(ts)),
            Action::Nothing => delete_focused_snapshot_effect(before, after, None),
            _ => false,
        },
        BackupOp::Up => move_backup_focus_effect(disarmed, after, -1i32) && a is Nothing,
        BackupOp::Down => move_backup_focus_effect(disarmed, after, 1) && a is Nothing,
        BackupOp::Snapshot => after == disarmed && a is CreateSnapshot,
        BackupOp::Restore => match a {
            Action::RestoreSnapshot(ts) => restore_focused_snapshot_effect(disarmed, after, Some(ts)),
            Action::Nothing => restore_focused_snapshot_effect(disarmed, after, None),
            _ => false,
        },
        BackupOp::Push => match a {
            Action::PushBackup(id) => push_github_backup_effect(disarmed, after, Some(id)),
            Action::Nothing => push_github_backup_effect(disarmed, after, None),
            _ => false,
        },
    }
}

/// What a key on the Settings tab does (`a` is what is handed back).
pub open spec fn settings_op_effect(before: App, after: App, op: SettingsOp, a: Action) -> bool {
    match op {
        SettingsOp::Up => move_settings_focus_effect(before, after, -1i32) && a is Nothing,
        SettingsOp::Down => move_settings_focus_effect(before, after, 1) && a is Nothing,
        SettingsOp::Edit => settings_begin_edit_effect(before, after) && a is Nothing,
        SettingsOp::Toggle => match a {
            Action::SaveSettings(c) => settings_toggle_focused_effect(before, after, Some(c)),
            Action::Nothing => settings_toggle_focused_effect(before, after, None),
            _ => false,
        },
        SettingsOp::CycleTheme => match a {
            Action::SaveTheme(slug) => cycle_theme_effect(before, after, Some(slug)),
            Action::Nothing => cycle_theme_effect(before, after, None),
            _ => false,
        },
    }
}

fn run_skill_search(app: &mut App, op: SearchOp) -> (a: Action)
    requires
        within_limits(*old(app)),
        old(app).search_popup is Some,
    ensures
        skill_search_op_effect(*old(app), *final(app), op, a),
{
    match op {
        SearchOp::Cancel => app.search_popup_cancel(),
        SearchOp::ToggleFocus => app.search_popup_toggle_focus(),
        SearchOp::Up => app.search_popup_move(-1),
        SearchOp::Down => app.search_popup_move(1),
        SearchOp::Backspace => app.search_popup_pop(),
        SearchOp::Type(c) => app.search_popup_push(c),
        SearchOp::Enter => {
            return match app.search_popup_enter() {
                SearchStep::Nothing => Action::Nothing,
                SearchStep::Query(q) => Action::SearchSkills(q),
                SearchStep::Install(add) => Action::AddRepo(add),
            };
        },
    }
    Action::Nothing
}

fn run_mcp_search(app: &mut App, op: SearchOp) -> (a: Action)
    requires
        within_limits(*old(app)),
        old(app).mcp_search_popup is Some,
    ensures
        mcp_search_op_effect(*old(app), *final(app), op, a),
{
    match op {
        SearchOp::Cancel => app.mcp_search_popup_cancel(),
        SearchOp::ToggleFocus => app.mcp_search_popup_toggle_focus(),
        SearchOp::Up => app.mcp_search_popup_move(-1),
        SearchOp::Down => app.mcp_search_popup_move(1),
        SearchOp::Backspace => app.mcp_search_popup_pop(),
        SearchOp::Type(c) => app.mcp_search_popup_push(c),
        SearchOp::Enter => {
            return match app.mcp_search_popup_enter() {
                McpSearchStep::Nothing => Action::Nothing,
                McpSearchStep::Query(q) => Action::SearchMcp(q),
                McpSearchStep::Install(s) => Action::AddMcp(s),
            };
        },
    }
    Action::Nothing
}

fn run_presets(app: &mut App, op: PresetsOp) -> (a: Action)
    requires
        within_limits(*old(app)),
        old(app).presets_popup is Some,
    ensures
        presets_op_effect(*old(app), *final(app), op, a),
{
    match op {
        PresetsOp::Up => app.presets_popup_move(-1),
        PresetsOp::Down => app.presets_popup_move(1),
        PresetsOp::Cancel => app.presets_popup_cancel(),
        PresetsOp::LiveSearch => {
            let kind = match &app.presets_popup {
                Some(p) => p.kind,
                None => PresetsKind::Plugin,
            };
            app.presets_popup_cancel();
            match kind {
                PresetsKind::Mcp => app.open_search_mcp(),
                PresetsKind::SkillRepo => app.open_search_skills(),
                PresetsKind::Plugin => {},
            }
        },
        PresetsOp::Enter => {
            return match app.presets_popup_commit() {
                None => Action::Nothing,
                Some((PresetsKind::Mcp, i)) => match app.install_mcp_preset(i) {
                    Some(s) => Action::AddMcp(s),
                    None => Action::Nothing,
                },
                Some((PresetsKind::SkillRepo, i)) => match app.install_skill_repo_preset(i) {
                    Some(add) => Action::AddRepo(add),
                    None => Action::Nothing,
                },
                Some((PresetsKind::Plugin, i)) => match app.install_plugin_preset(i) {
                    Some(p) => Action::InstallPlugin(p),
                    None => Action::Nothing,
                },
            };
        },
    }
    Action::Nothing
}

fn run_agents(app: &mut App, op: AgentOp) -> (a: Action)
    requires
        within_limits(*old(app)),
        old(app).agent_popup is Some,
    ensures
        agents_op_effect(*old(app), *final(app), op, a),
{
    match op {
        AgentOp::Up => app.agent_popup_move(-1),
        AgentOp::Down => app.agent_popup_move(1),
        AgentOp::Toggle => app.agent_popup_toggle(),
        AgentOp::All => app.agent_popup_set_all(true),
        AgentOp::Clear => app.agent_popup_set_all(false),
        AgentOp::Cancel => app.agent_popup_cancel(),
        AgentOp::Commit => {
            return match app.agent_popup_commit() {
                Some(c) => Action::ApplyAgents(c),
                None => Action::Nothing,
            };
        },
    }
    Action::Nothing
}

fn run_method(app: &mut App, op: MethodOp) -> (a: Action)
    requires
        within_limits(*old(app)),
        old(app).method_popup is Some,
    ensures
        method_op_effect(*old(app), *final(app), op, a),
{
    match op {
        MethodOp::Up => app.method_popup_move(-1),
        MethodOp::Down => app.method_popup_move(1),
        MethodOp::Cancel => app.method_popup_cancel(),
        MethodOp::Commit => {
            return match app.method_popup_commit() {
                Some(c) => Action::ApplyMethod(c),
                None => Action::Nothing,
            };
        },
    }
    Action::Nothing
}

fn run_filter(app: &mut App, tab: Tab, op: EditOp)
    ensures
        filter_op_effect(*old(app), *final(app), tab, op),
{
    match tab {
        Tab::Skills => match op {
            EditOp::Type(c) => app.skills_filter_push(c),
            EditOp::Backspace => app.skills_filter_pop(),
            EditOp::Enter => app.skills_filter_close_keep(),
            EditOp::Esc => app.skills_filter_clear(),
        },
        Tab::Mcp => match op {
            EditOp::Type(c) => app.mcp_filter_push(c),
            EditOp::Backspace => app.mcp_filter_pop(),
            EditOp::Enter => app.mcp_filter_close_keep(),
            EditOp::Esc => app.mcp_filter_clear(),
        },
        Tab::Rules => match op {
            EditOp::Type(c) => app.rules_filter_push(c),
            EditOp::Backspace => app.rules_filter_pop(),
            EditOp::Enter => app.rules_filter_close_keep(),
            EditOp::Esc => app.rules_filter_clear(),
        },
        _ => {},
    }
}

fn run_settings_input(app: &mut App, op: EditOp) -> (a: Action)
    ensures
        settings_input_op_effect(*old(app), *final(app), op, a),
{
    match op {
        EditOp::Type(c) => app.settings_input_push(c),
        EditOp::Backspace => app.settings_input_pop(),
        EditOp::Esc => app.settings_input_cancel(),
        EditOp::Enter => {
            return match app.settings_input_commit() {
                Some(c) => Action::SaveSettings(c),
                None => Action::Nothing,
            };
        },
    }
    Action::Nothing
}

fn run_profiles(app: &mut App, op: ProfilesOp) -> (a: Action)
    requires
        within_limits(*old(app)),
    ensures
        profiles_op_effect(*old(app), *final(app), op, a),
{
    match op {
        ProfilesOp::Up => app.move_profile_selection(-1),
        ProfilesOp::Down => app.move_profile_selection(1),
        ProfilesOp::Left => app.move_agent_focus(-1),
        ProfilesOp::Right => app.move_agent_focus(1),
        ProfilesOp::Import => {
            return Action::ImportProfiles;
        },
        ProfilesOp::Switch => {
            return match app.switch_focused_profile() {
                Some(sw) => Action::SwitchProfile(sw),
                None => Action::Nothing,
            };
        },
    }
    Action::Nothing
}

fn run_skills(app: &mut App, op: ListOp) -> (a: Action)
    requires
        within_limits(*old(app)),
    ensures
        skills_op_effect(*old(app), *final(app), op, a),
{
    match op {
        ListOp::First => app.jump_skill_focus(false),
        ListOp::Last => app.jump_skill_focus(true),
        ListOp::Up => app.move_skill_focus(-1),
        ListOp::Down => app.move_skill_focus(1),
        ListOp::ToggleSelect => app.toggle_focused_skill_selection(),
        ListOp::AgentPopup => app.open_agent_popup_for_focused(),
        ListOp::OpenFilter => app.skills_filter_open(),
        ListOp::ClearFilter => app.skills_filter_clear(),
        ListOp::NewMenu => app.open_new_skill_menu(),
        ListOp::LiveSearch => app.open_search_skills(),
        ListOp::PickMethod => app.open_method_popup_for_focused(),
        ListOp::SelectAll => app.select_all_skills(),
        ListOp::ClearSelection => app.clear_skill_selection(),
        ListOp::Import => {
            return Action::ImportSkills;
        },
        ListOp::SyncAll => {
            return Action::SyncAllSkills;
        },
        ListOp::CycleMethod => {
            return match app.cycle_focused_skill_method() {
                Some(c) => Action::StoreMethod(c),
                None => Action::Nothing,
            };
        },
        ListOp::SyncSelected => {
            return match app.sync_selected_skills() {
                Some(ids) => Action::SyncSkills(ids),
                None => Action::Nothing,
            };
        },
        ListOp::SyncFocused => {
            return match app.sync_focused_skill() {
                Some((id, name)) => Action::SyncSkill(id, name),
                None => Action::Nothing,
            };
        },
        ListOp::Delete => {},
    }
    Action::Nothing
}

fn run_mcp(app: &mut App, op: ListOp) -> (a: Action)
    requires
        within_limits(*old(app)),
    ensures
        mcp_op_effect(*old(app), *final(app), op, a),
{
    match op {
        ListOp::First => app.jump_mcp_focus(false),
        ListOp::Last => app.jump_mcp_focus(true),
        ListOp::Up => app.move_mcp_focus(-1),
        ListOp::Down => app.move_mcp_focus(1),
        ListOp::ToggleSelect => app.toggle_focused_mcp_selection(),
        ListOp::AgentPopup => app.open_agent_popup_for_focused_mcp(),
        ListOp::OpenFilter => app.mcp_filter_open(),
        ListOp::ClearFilter => app.mcp_filter_clear(),
        ListOp::NewMenu => app.open_new_mcp_menu(),
        ListOp::LiveSearch => app.open_search_mcp(),
        ListOp::Import => {
            return Action::ImportMcp;
        },
        ListOp::SyncAll => {
            return Action::SyncAllMcp;
        },
        ListOp::Delete => {
            return match app.delete_focused_mcp() {
                Some((id, name)) => Action::DeleteMcp(id, name),
                None => Action::Nothing,
            };
        },
        _ => {},
    }
    Action::Nothing
}

fn run_rules(app: &mut App, op: ListOp) -> (a: Action)
    requires
        within_limits(*old(app)),
    ensures
        rules_op_effect(*old(app), *final(app), op, a),
{
    match op {
        ListOp::First => app.jump_rules_focus(false),
        ListOp::Last => app.jump_rules_focus(true),
        ListOp::Up => app.move_rules_focus(-1),
        ListOp::Down => app.move_rules_focus(1),
        ListOp::ToggleSelect => app.toggle_focused_rule_selection(),
        ListOp::AgentPopup => app.open_agent_popup_for_focused_rule(),
        ListOp::OpenFilter => app.rules_filter_open(),
        ListOp::ClearFilter => app.rules_filter_clear(),
        ListOp::Import => {
            return Action::ImportRules;
        },
        ListOp::SyncAll => {
            return Action::SyncAllRules;
        },
        ListOp::Delete => {
            return match app.delete_focused_rule() {
                Some((id, name)) => Action::DeleteRule(id, name),
                None => Action::Nothing,
            };
        },
        _ => {},
    }
    Action::Nothing
}

fn run_plugins(app: &mut App, op: PluginsOp) -> (a: Action)
    requires
        within_limits(*old(app)),
    ensures
        plugins_op_effect(*old(app), *final(app), op, a),
        op != PluginsOp::Delete ==> final(app).plugins_view.delete_armed_at_ms is None,
{
    if op == PluginsOp::Delete {
        return match app.delete_focused_plugin() {
            Some(p) => Action::RemovePlugin(p),
            None => Action::Nothing,
        };
    }
    app.clear_plugin_delete_arm();
    match op {
        PluginsOp::Up => app.move_plugin_focus(-1),
        PluginsOp::Down => app.move_plugin_focus(1),
        _ => app.open_new_plugin_menu(),
    }
    Action::Nothing
}

fn run_backup(app: &mut App, op: BackupOp) -> (a: Action)
    requires
        within_limits(*old(app)),
    ensures
        backup_op_effect(*old(app), *final(app), op, a),
        op != BackupOp::Delete ==> final(app).backup_view.delete_armed_at_ms is None,
{
    if op == BackupOp::Delete {
        return match app.delete_focused_snapshot() {
            Some(ts) => Action::DeleteSnapshot(ts),
            None => Action::Nothing,
        };
    }
    app.clear_backup_delete_arm();
    match op {
        BackupOp::Up => {
            app.move_backup_focus(-1);
            Action::Nothing
        },
        BackupOp::Down => {
            app.move_backup_focus(1);
            Action::Nothing
        },
        BackupOp::Snapshot => Action::CreateSnapshot,
        BackupOp::Restore => match app.restore_focused_snapshot() {
            Some(ts) => Action::RestoreSnapshot(ts),
            None => Action::Nothing,
        },
        _ => match app.push_github_backup() {
            Some(id) => Action::PushBackup(id),
            None => Action::Nothing,
        },
    }
}

fn run_settings(app: &mut App, op: SettingsOp) -> (a: Action)
    ensures
        settings_op_effect(*old(app), *final(app), op, a),
{
    match op {
        SettingsOp::Up => app.move_settings_focus(-1),
        SettingsOp::Down => app.move_settings_focus(1),
        SettingsOp::Edit => app.settings_begin_edit(),
        SettingsOp::Toggle => {
            return match app.settings_toggle_focused() {
                Some(c) => Action::SaveSettings(c),
                None => Action::Nothing,
            };
        },
        SettingsOp::CycleTheme => {
            return match app.cycle_theme() {
                Some(slug) => Action::SaveTheme(slug),
                None => Action::Nothing,
            };
        },
    }
    Action::Nothing
}

/// Handles a key event: finds the command it stands for (`key_command`)
/// and carries it out on `app`, returning what is left for the host.
/// An unbound key changes nothing; while help is shown any key only
/// closes it; a key on the Backup or Plugins tab other than `d` disarms a
/// pending delete. Each popup, line and tab command has the effect of the
/// `App` method it names, as the `*_op_effect` predicates spell out.
#[verifier::rlimit(80)]
#[verifier::spinoff_prover]
pub fn handle_key(app: &mut App, k: Key) -> (r: KeyOutcome)
    requires
        within_limits(*old(app)),
    ensures
        r.command == key_command_spec(*old(app), k),
        r.consumed == (r.command != Command::Unbound),
        r.command == Command::Unbound ==> *final(app) == *old(app) && r.action is Nothing,
        r.command == Command::CloseHelp ==> *final(app) == (App { show_help: false, ..*old(app) }) && r.action is Nothing,
        r.command == Command::OpenHelp ==> *final(app) == (App { show_help: true, ..*old(app) }) && r.action is Nothing,
        r.command == Command::Quit ==> *final(app) == (App { should_quit: true, ..*old(app) }) && r.action is Nothing,
        r.command == Command::NextTab ==> *final(app) == (App {
            active_tab: next_tab_spec(old(app).active_tab),
            ..*old(app)
        }) && r.action is Nothing,
        r.command == Command::PrevTab ==> *final(app) == (App {
            active_tab: prev_tab_spec(old(app).active_tab),
            ..*old(app)
        }) && r.action is Nothing,
        r.command matches Command::JumpTab(i) ==> *final(app) == (App { active_tab: tab_at(i as int), ..*old(app) })
            && r.action is Nothing,
        r.command == Command::ToggleActivity ==> *final(app) == (App {
            show_activity: !old(app).show_activity,
            ..*old(app)
        }) && r.action is Nothing,
        r.command == Command::Presets(PresetsOp::Cancel) ==> *final(app) == (App { presets_popup: None, ..*old(app) }),
        r.command == Command::Agents(AgentOp::Cancel) ==> *final(app) == (App { agent_popup: None, ..*old(app) }),
        r.command == Command::Method(MethodOp::Cancel) ==> *final(app) == (App { method_popup: None, ..*old(app) }),
        r.command == Command::SkillSearch(SearchOp::Cancel) ==> *final(app) == (App { search_popup: None, ..*old(app) }),
        r.command == Command::McpSearch(SearchOp::Cancel) ==> *final(app) == (App { mcp_search_popup: None, ..*old(app) }),
        r.command == Command::InstallerClose ==> *final(app) == *old(app) && r.action is CloseInstaller,
        r.command matches Command::Backup(op) && op != BackupOp::Delete ==> final(app).backup_view.delete_armed_at_ms is None,
        r.command matches Command::Plugins(op) && op != PluginsOp::Delete ==> final(app).plugins_view.delete_armed_at_ms is None,
        r.command == Command::InstallerYes ==> *final(app) == *old(app) && match r.action {
            Action::InstallPnpm => install_log_confirm_pnpm_result(*old(app), true),
            Action::Nothing => install_log_confirm_pnpm_result(*old(app), false),
            _ => false,
        },
        r.command == Command::InstallerNo ==> match r.action {
            Action::GitCloneFallback(s) => install_log_decline_pnpm_effect(*old(app), *final(app), Some(s)),
            Action::Nothing => install_log_decline_pnpm_effect(*old(app), *final(app), None),
            _ => false,
        },
        r.command matches Command::SkillSearch(op) ==> skill_search_op_effect(*old(app), *final(app), op, r.action),
        r.command matches Command::McpSearch(op) ==> mcp_search_op_effect(*old(app), *final(app), op, r.action),
        r.command matches Command::Presets(op) ==> presets_op_effect(*old(app), *final(app), op, r.action),
        r.command matches Command::Agents(op) ==> agents_op_effect(*old(app), *final(app), op, r.action),
        r.command matches Command::Method(op) ==> method_op_effect(*old(app), *final(app), op, r.action),
        r.command matches Command::Filter(tab, op) ==> filter_op_effect(*old(app), *final(app), tab, op)
            && r.action is Nothing,
        r.command matches Command::SettingsInput(op) ==> settings_input_op_effect(*old(app), *final(app), op, r.action),
        r.command matches Command::Profiles(op) ==> profiles_op_effect(*old(app), *final(app), op, r.action),
        r.command matches Command::List(tab, op) ==> match tab {
            Tab::Skills => skills_op_effect(*old(app), *final(app), op, r.action),
            Tab::Mcp => mcp_op_effect(*old(app), *final(app), op, r.action),
            Tab::Rules => rules_op_effect(*old(app), *final(app), op, r.action),
            _ => *final(app) == *old(app) && r.action is Nothing,
        },
        r.command matches Command::Plugins(op) ==> plugins_op_effect(*old(app), *final(app), op, r.action),
        r.command matches Command::Backup(op) ==> backup_op_effect(*old(app), *final(app), op, r.action),
        r.command matches Command::Settings(op) ==> settings_op_effect(*old(app), *final(app), op, r.action),
{
    let c = key_command(app, k);
    let action = match c {
        Command::Unbound => Action::Nothing,
        Command::CloseHelp => {
            app.show_help = false;
            Action::Nothing
        },
        Command::OpenHelp => {
            app.show_help = true;
            Action::Nothing
        },
        Command::Quit => {
            app.should_quit = true;
            Action::Nothing
        },
        Command::NextTab => {
            app.next_tab();
            Action::Nothing
        },
        Command::PrevTab => {
            app.prev_tab();
            Action::Nothing
        },
        Command::JumpTab(i) => {
            match Tab::from_index(i) {
                Some(t) => app.set_active_tab(t),
                None => {},
            }
            Action::Nothing
        },
        Command::ToggleActivity => {
            app.toggle_activity();
            Action::Nothing
        },
        Command::InstallerYes => if app.install_log_confirm_pnpm() {
            Action::InstallPnpm
        } else {
            Action::Nothing
        },
        Command::InstallerNo => match app.install_log_decline_pnpm() {
            Some(s) => Action::GitCloneFallback(s),
            None => Action::Nothing,
        },
        Command::InstallerClose => Action::CloseInstaller,
        Command::SkillSearch(op) => run_skill_search(app, op),
        Command::McpSearch(op) => run_mcp_search(app, op),
        Command::Presets(op) => run_presets(app, op),
        Command::Agents(op) => run_agents(app, op),
        Command::Method(op) => run_method(app, op),
        Command::Filter(tab, op) => {
            run_filter(app, tab, op);
            Action::Nothing
        },
        Command::SettingsInput(op) => run_settings_input(app, op),
        Command::Profiles(op) => run_profiles(app, op),
        Command::List(tab, op) => match tab {
            Tab::Skills => run_skills(app, op),
            Tab::Mcp => run_mcp(app, op),
            Tab::Rules => run_rules(app, op),
            _ => Action::Nothing,
        },
        Command::Plugins(op) => run_plugins(app, op),
        Command::Backup(op) => run_backup(app, op),
        Command::Settings(op) => run_settings(app, op),
    };
    KeyOutcome { consumed: c != Command::Unbound, command: c, action }
}

/// What a toolbar button does when clicked.
#[derive(Debug, Clone, Copy, PartialEq, Eq, Structural)]
pub enum ButtonAction {
    RulesSyncAll,
    RulesImport,
    RulesDelete,
    PluginsNew,
    PluginsDelete,
}

/// One toolbar button's clickable rectangle and its action.
#[derive(Debug, Clone, Copy, PartialEq, Eq, Structural)]
pub struct ButtonHit {
    pub action: ButtonAction,
    pub x: u16,
    pub y: u16,
    pub w: u16,
    pub h: u16,
}

impl ButtonHit {
    pub open spec fn contains_spec(self, col: u16, row: u16) -> bool {
        col >= self.x && col < self.x + self.w && row >= self.y && row < self.y + self.h
    }

    /// Whether the cell at `(col, row)` lies inside the rectangle.
    pub fn contains(self, col: u16, row: u16) -> (b: bool)
        requires
            self.x + self.w <= u16::MAX,
            self.y + self.h <= u16::MAX,
        ensures
            b == self.contains_spec(col, row),
    {
        col >= self.x && col < self.x + self.w && row >= self.y && row < self.y + self.h
    }
}

/// The clickable rectangles the last drawn frame left behind.
#[derive(Debug)]
pub struct FrameOutput {
    pub tab_hits: Vec<TabHit>,
    pub button_hits: Vec<ButtonHit>,
}

/// A toolbar button: its label (drawn as a pill) and its action.
#[derive(Debug, Clone, Copy)]
pub struct ToolbarButton {
    pub label: &'static str,
    pub action: ButtonAction,
}

/// The rectangles of buttons `i..` of a toolbar whose previous button ended
/// at column `x`: buttons are two cells apart, none starts at or past
/// `right_edge`, each is clipped to end there.
pub open spec fn button_hits_from(
    labels: Seq<(Seq<char>, ButtonAction)>,
    i: int,
    x: u16,
    y: u16,
    right_edge: u16,
) -> Seq<ButtonHit>
    decreases labels.len() - i,
{
    if i < 0 || i >= labels.len() {
        Seq::empty()
    } else {
        let start = if i > 0 { sat_add(x as int, 2) } else { x };
        if start >= right_edge {
            Seq::empty()
        } else {
            let w = labels[i].0.len() as u16;
            let clamped = if w < right_edge - start { w } else { (right_edge - start) as u16 };
            let hit = ButtonHit { action: labels[i].1, x: start, y, w: clamped, h: 1 };
            seq![hit] + button_hits_from(labels, i + 1, sat_add(start as int, w as int), y, right_edge)
        }
    }
}

/// Every button rectangle from position `i` on starts at or after `x`, lies
/// on row `y`, is one cell high and ends at or before `right_edge`.
proof fn lemma_button_hits_from_inside(
    labels: Seq<(Seq<char>, ButtonAction)>,
    i: int,
    x: u16,
    y: u16,
    right_edge: u16,
)
    ensures
        forall|k: int|
            0 <= k < button_hits_from(labels, i, x, y, right_edge).len() ==> {
                let h = #[trigger] button_hits_from(labels, i, x, y, right_edge)[k];
                &&& x <= h.x
                &&& h.x + h.w <= right_edge
                &&& h.y == y
                &&& h.h == 1
            },
    decreases labels.len() - i,
{
    if i < 0 || i >= labels.len() {
    } else {
        let start = if i > 0 { sat_add(x as int, 2) } else { x };
        if start >= right_edge {
        } else {
            let w = labels[i].0.len() as u16;
            let next = sat_add(start as int, w as int);
            lemma_button_hits_from_inside(labels, i + 1, next, y, right_edge);
            let rest = button_hits_from(labels, i + 1, next, y, right_edge);
            assert forall|k: int| 1 <= k < button_hits_from(labels, i, x, y, right_edge).len() implies
                #[trigger] button_hits_from(labels, i, x, y, right_edge)[k] == rest[k - 1] by {}
        }
    }
}

/// The clickable button rectangles of a toolbar drawn in `area` all lie on
/// its first row, between its left edge and its right edge.
pub proof fn lemma_button_hits_inside(area: Rect, labels: Seq<(Seq<char>, ButtonAction)>)
    ensures
        forall|k: int|
            0 <= k < button_hits_from(labels, 0, area.x, area.y, sat_add(area.x as int, area.width as int)).len()
                ==> {
                let h = #[trigger] button_hits_from(
                    labels,
                    0,
                    area.x,
                    area.y,
                    sat_add(area.x as int, area.width as int),
                )[k];
                &&& area.x <= h.x
                &&& h.x + h.w <= area.x + area.width
                &&& h.y == area.y
                &&& h.h == 1
            },
{
    lemma_button_hits_from_inside(labels, 0, area.x, area.y, sat_add(area.x as int, area.width as int));
}

/// Labels and actions of a toolbar.
pub open spec fn toolbar_view(buttons: Seq<ToolbarButton>) -> Seq<(Seq<char>, ButtonAction)> {
    buttons.map_values(|b: ToolbarButton| (b.label@, b.action))
}

/// Click rectangles of a toolbar drawn on the first row of `area`.
pub fn button_bar_hits(area: Rect, buttons: &Vec<ToolbarButton>) -> (r: Vec<ButtonHit>)
    ensures
        r@ == button_hits_from(toolbar_view(buttons@), 0, area.x, area.y, sat_add(area.x as int, area.width as int)),
{
    let right_edge = area.x.saturating_add(area.width);
    let ghost labels = toolbar_view(buttons@);
    let mut hits: Vec<ButtonHit> = Vec::new();
    let mut x = area.x;
    let mut i: usize = 0;
    while i < buttons.len()
        invariant
            i <= buttons@.len(),
            labels == toolbar_view(buttons@),
            right_edge == sat_add(area.x as int, area.width as int),
            i == 0 ==> x == area.x,
            hits@ + button_hits_from(labels, i as int, x, area.y, right_edge) == button_hits_from(
                labels,
                0,
                area.x,
                area.y,
                right_edge,
            ),
        decreases buttons@.len() - i,
    {
        let ghost old_hits = hits@;
        let ghost old_x = x;
        let start = if i > 0 { x.saturating_add(2) } else { x };
        if start >= right_edge {
            assert(button_hits_from(labels, i as int, x, area.y, right_edge) =~= Seq::<ButtonHit>::empty());
            assert(hits@ =~= hits@ + Seq::<ButtonHit>::empty());
            return hits;
        }
        let b = buttons[i];
        let w = chars_of(b.label).len() as u16;
        let room = right_edge - start;
        let clamped = if w < room { w } else { room };
        hits.push(ButtonHit { action: b.action, x: start, y: area.y, w: clamped, h: 1 });
        x = start.saturating_add(w);
        proof {
            assert(labels[i as int] == (b.label@, b.action));
            assert(hits@ + button_hits_from(labels, i + 1, x, area.y, right_edge) =~= old_hits + button_hits_from(
                labels,
                i as int,
                old_x,
                area.y,
                right_edge,
            ));
        }
        i = i + 1;
    }
    assert(button_hits_from(labels, i as int, x, area.y, right_edge) =~= Seq::<ButtonHit>::empty());
    assert(hits@ =~= hits@ + Seq::<ButtonHit>::empty());
    hits
}

/// Toolbar of a tab: the Rules and Plugins tabs have one.
pub open spec fn toolbar_spec(tab: Tab) -> Seq<(Seq<char>, ButtonAction)> {
    match tab {
        Tab::Rules => seq![
            (" Sync all (S) "@, ButtonAction::RulesSyncAll),
            (" Import live (i) "@, ButtonAction::RulesImport),
            (" Delete (d) "@, ButtonAction::RulesDelete),
        ],
        Tab::Plugins => seq![(" + New (n) "@, ButtonAction::PluginsNew), (" Delete (d) "@, ButtonAction::PluginsDelete)],
        _ => Seq::empty(),
    }
}

/// The toolbar buttons of `tab`.
pub fn toolbar(tab: Tab) -> (r: Vec<ToolbarButton>)
    ensures
        toolbar_view(r@) == toolbar_spec(tab),
{
    let r = match tab {
        Tab::Rules => vec![
            ToolbarButton { label: " Sync all (S) ", action: ButtonAction::RulesSyncAll },
            ToolbarButton { label: " Import live (i) ", action: ButtonAction::RulesImport },
            ToolbarButton { label: " Delete (d) ", action: ButtonAction::RulesDelete },
        ],
        Tab::Plugins => vec![
            ToolbarButton { label: " + New (n) ", action: ButtonAction::PluginsNew },
            ToolbarButton { label: " Delete (d) ", action: ButtonAction::PluginsDelete },
        ],
        _ => Vec::new(),
    };
    assert(toolbar_view(r@) =~= toolbar_spec(tab));
    r
}

/// A mouse event: whether it is a left-button press, and the cell.
#[derive(Debug, Clone, Copy, PartialEq, Eq, Structural)]
pub struct Mouse {
    pub left_down: bool,
    pub column: u16,
    pub row: u16,
}

/// Index of the first tab rectangle holding the cell, if any.
pub open spec fn first_tab_hit(hits: Seq<TabHit>, col: u16, row: u16) -> Option<int> {
    if exists|i: int| 0 <= i < hits.len() && #[trigger] hits[i].contains_spec(col, row) {
        Some(choose|i: int| 0 <= i < hits.len() && hits[i].contains_spec(col, row) && forall|j: int|
            0 <= j < i ==> !#[trigger] hits[j].contains_spec(col, row))
    } else {
        None
    }
}

/// Index of the first button rectangle holding the cell, if any.
pub open spec fn first_button_hit(hits: Seq<ButtonHit>, col: u16, row: u16) -> Option<int> {
    if exists|i: int| 0 <= i < hits.len() && #[trigger] hits[i].contains_spec(col, row) {
        Some(choose|i: int| 0 <= i < hits.len() && hits[i].contains_spec(col, row) && forall|j: int|
            0 <= j < i ==> !#[trigger] hits[j].contains_spec(col, row))
    } else {
        None
    }
}

/// A rectangle that does not run past the last cell.
pub open spec fn tab_hit_fits(h: TabHit) -> bool {
    h.x + h.w <= u16::MAX && h.y + h.h <= u16::MAX
}

pub open spec fn button_hit_fits(h: ButtonHit) -> bool {
    h.x + h.w <= u16::MAX && h.y + h.h <= u16::MAX
}

/// The result of handling a click.
#[derive(Debug)]
pub struct MouseOutcome {
    pub consumed: bool,
    pub action: Action,
}

fn find_tab_hit(hits: &Vec<TabHit>, col: u16, row: u16) -> (r: Option<usize>)
    requires
        forall|i: int| 0 <= i < hits@.len() ==> tab_hit_fits(#[trigger] hits@[i]),
    ensures
        match r {
            Some(i) => i < hits@.len() && hits@[i as int].contains_spec(col, row) && forall|j: int|
                0 <= j < i ==> !#[trigger] hits@[j].contains_spec(col, row),
            None => forall|j: int| 0 <= j < hits@.len() ==> !#[trigger] hits@[j].contains_spec(col, row),
        },
{
    let mut i: usize = 0;
    while i < hits.len()
        invariant
            i <= hits@.len(),
            forall|j: int| 0 <= j < hits@.len() ==> tab_hit_fits(#[trigger] hits@[j]),
            forall|j: int| 0 <= j < i ==> !#[trigger] hits@[j].contains_spec(col, row),
        decreases hits@.len() - i,
    {
        let h = hits[i];
        proof {
            assert(tab_hit_fits(hits@[i as int]));
        }
        if h.contains(col, row) {
            return Some(i);
        }
        i = i + 1;
    }
    None
}

fn find_button_hit(hits: &Vec<ButtonHit>, col: u16, row: u16) -> (r: Option<usize>)
    requires
        forall|i: int| 0 <= i < hits@.len() ==> button_hit_fits(#[trigger] hits@[i]),
    ensures
        match r {
            Some(i) => i < hits@.len() && hits@[i as int].contains_spec(col, row) && forall|j: int|
                0 <= j < i ==> !#[trigger] hits@[j].contains_spec(col, row),
            None => forall|j: int| 0 <= j < hits@.len() ==> !#[trigger] hits@[j].contains_spec(col, row),
        },
{
    let mut i: usize = 0;
    while i < hits.len()
        invariant
            i <= hits@.len(),
            forall|j: int| 0 <= j < hits@.len() ==> button_hit_fits(#[trigger] hits@[j]),
            forall|j: int| 0 <= j < i ==> !#[trigger] hits@[j].contains_spec(col, row),
        decreases hits@.len() - i,
    {
        let h = hits[i];
        proof {
            assert(button_hit_fits(hits@[i as int]));
        }
        if h.contains(col, row) {
            return Some(i);
        }
        i = i + 1;
    }
    None
}

/// Handles a click: a left press on a tab label switches to that tab; on
/// a toolbar button it runs the button's action, as its key would; any
/// other event changes nothing.
pub fn handle_mouse(app: &mut App, ev: Mouse, tab_hits: &Vec<TabHit>, button_hits: &Vec<ButtonHit>) -> (r: MouseOutcome)
    requires
        forall|i: int| 0 <= i < tab_hits@.len() ==> tab_hit_fits(#[trigger] tab_hits@[i]),
        forall|i: int| 0 <= i < button_hits@.len() ==> button_hit_fits(#[trigger] button_hits@[i]),
    ensures
        !ev.left_down ==> !r.consumed && r.action is Nothing && *final(app) == *old(app),
        ev.left_down && first_tab_hit(tab_hits@, ev.column, ev.row) is Some ==> {
            &&& r.consumed
            &&& r.action is Nothing
            &&& *final(app) == (App {
                active_tab: tab_hits@[first_tab_hit(tab_hits@, ev.column, ev.row)->0].tab,
                ..*old(app)
            })
        },
        ev.left_down && first_tab_hit(tab_hits@, ev.column, ev.row) is None ==> (r.consumed <==> first_button_hit(
            button_hits@,
            ev.column,
            ev.row,
        ) is Some),
        ev.left_down && first_tab_hit(tab_hits@, ev.column, ev.row) is None && first_button_hit(
            button_hits@,
            ev.column,
            ev.row,
        ) is None ==> *final(app) == *old(app) && r.action is Nothing,
        ev.left_down && first_tab_hit(tab_hits@, ev.column, ev.row) is None ==> (first_button_hit(
            button_hits@,
            ev.column,
            ev.row,
        ) matches Some(j) ==> match button_hits@[j].action {
            ButtonAction::RulesSyncAll => r.action is SyncAllRules && *final(app) == *old(app),
            ButtonAction::RulesImport => r.action is ImportRules && *final(app) == *old(app),
            ButtonAction::RulesDelete => *final(app) == *old(app) && match focused_rule_spec(old(app).rules_view) {
                Some(s) => r.action == Action::DeleteRule(s.id, s.name),
                None => r.action is Nothing,
            },
            ButtonAction::PluginsNew => r.action is Nothing && *final(app) == (App {
                presets_popup: Some(PresetsPopup {
                    kind: PresetsKind::Plugin,
                    cursor: 0,
                    total: old(app).catalog.plugins@.len() as usize,
                }),
                ..*old(app)
            }),
            ButtonAction::PluginsDelete => match r.action {
                Action::RemovePlugin(p) => delete_focused_plugin_effect(*old(app), *final(app), Some(p)),
                Action::Nothing => delete_focused_plugin_effect(*old(app), *final(app), None),
                _ => false,
            },
        }),
{
    if !ev.left_down {
        return MouseOutcome { consumed: false, action: Action::Nothing };
    }
    match find_tab_hit(tab_hits, ev.column, ev.row) {
        Some(i) => {
            proof {
                let f = first_tab_hit(tab_hits@, ev.column, ev.row);
                assert(tab_hits@[i as int].contains_spec(ev.column, ev.row));
                let k = f->0;
                assert(f is Some);
                if k < i {
                    assert(!tab_hits@[k].contains_spec(ev.column, ev.row));
                } else if k > i {
                    assert(!tab_hits@[i as int].contains_spec(ev.column, ev.row));
                }
                assert(k == i);
            }
            let t = tab_hits[i].tab;
            app.set_active_tab(t);
            return MouseOutcome { consumed: true, action: Action::Nothing };
        },
        None => {},
    }
    match find_button_hit(button_hits, ev.column, ev.row) {
        Some(j) => {
            proof {
                let f = first_button_hit(button_hits@, ev.column, ev.row);
                assert(button_hits@[j as int].contains_spec(ev.column, ev.row));
                let k = f->0;
                assert(f is Some);
                if k < j {
                    assert(!button_hits@[k].contains_spec(ev.column, ev.row));
                } else if k > j {
                    assert(!button_hits@[j as int].contains_spec(ev.column, ev.row));
                }
                assert(k == j);
            }
            let action = match button_hits[j].action {
                ButtonAction::RulesSyncAll => Action::SyncAllRules,
                ButtonAction::RulesImport => Action::ImportRules,
                ButtonAction::RulesDelete => match app.delete_focused_rule() {
                    Some((id, name)) => Action::DeleteRule(id, name),
                    None => Action::Nothing,
                },
                ButtonAction::PluginsNew => {
                    app.open_new_plugin_menu();
                    Action::Nothing
                },
                ButtonAction::PluginsDelete => match app.delete_focused_plugin() {
                    Some(p) => Action::RemovePlugin(p),
                    None => Action::Nothing,
                },
            };
            MouseOutcome { consumed: true, action }
        },
        None => {
            proof {
                if first_button_hit(button_hits@, ev.column, ev.row) is Some {
                    let k = first_button_hit(button_hits@, ev.column, ev.row)->0;
                    assert(button_hits@[k].contains_spec(ev.column, ev.row));
                }
            }
            MouseOutcome { consumed: false, action: Action::Nothing }
        },
    }
}

/// While the help overlay is shown, every key press means "close help",
/// whatever else is open and whichever tab is active.
pub proof fn lemma_help_takes_any_key(app: App, k: Key)
    requires
        app.show_help,
        k.press,
    ensures
        key_command_spec(app, k) == Command::CloseHelp,
{
}

/// On any tab, with no popup open and no line being edited, `?` opens the
/// help overlay.
pub proof fn lemma_question_mark_opens_help(app: App, mods: Modifiers)
    requires
        layer_of(app) is Main,
        mods == Modifiers::Plain || mods == Modifiers::Shift,
    ensures
        key_command_spec(app, Key { code: KeyCode::Char('?'), mods, press: true }) == Command::OpenHelp,
{
}

/// Key releases and repeats are never bound.
pub proof fn lemma_release_is_unbound(app: App, k: Key)
    requires
        !k.press,
    ensures
        key_command_spec(app, k) == Command::Unbound,
{
}

/// On the Backup tab, with nothing on top, a plain `d` is the two-press
/// delete and every other bound key is another Backup or global command.
pub proof fn lemma_backup_d_deletes(app: App)
    requires
        layer_of(app) == Layer::Main(Tab::Backup, app.show_activity),
    ensures
        key_command_spec(app, Key { code: KeyCode::Char('d'), mods: Modifiers::Plain, press: true }) == Command::Backup(
            BackupOp::Delete,
        ),
{
}

/// On the Settings tab, with nothing on top, a plain `t` cycles the theme:
/// whatever row is focused, it never toggles or edits a setting.
pub proof fn lemma_settings_t_cycles_theme(app: App)
    requires
        layer_of(app) == Layer::Main(Tab::Settings, app.show_activity),
    ensures
        key_command_spec(app, Key { code: KeyCode::Char('t'), mods: Modifiers::Plain, press: true })
            == Command::Settings(SettingsOp::CycleTheme),
{
}

/// Cycling the theme changes the active theme alone: the GitHub backup
/// settings, the saved profiles and the Settings rows stay as they were;
/// the new theme is one of the available ones, and it is what is handed to
/// the host to save. With no theme available nothing changes.
pub proof fn lemma_cycle_theme_only_changes_the_theme(before: App, after: App, a: Action)
    requires
        settings_op_effect(before, after, SettingsOp::CycleTheme, a),
    ensures
        after.settings.github_backup == before.settings.github_backup,
        after.settings.current_profiles == before.settings.current_profiles,
        after.settings_view == before.settings_view,
        before.available_themes@.len() == 0 ==> after == before && a is Nothing,
        before.available_themes@.len() > 0 ==> {
            &&& a == Action::SaveTheme(after.settings.theme)
            &&& before.available_themes@.contains(after.settings.theme)
        },
{
    if before.available_themes@.len() > 0 {
        let v = before.available_themes@;
        let idx = match crate::app_settings::theme_pos_from(v, before.settings.theme@, 0) {
            Some(k) => k,
            None => 0,
        };
        lemma_theme_pos_in_range(v, before.settings.theme@, 0);
        let j = (idx + 1) % (v.len() as int);
        assert(0 <= j < v.len());
        assert(v[j] == after.settings.theme);
    }
}

/// The position `theme_pos_from` finds, if any, is a position of the list.
proof fn lemma_theme_pos_in_range(v: Seq<String>, name: Seq<char>, k: int)
    ensures
        crate::app_settings::theme_pos_from(v, name, k) matches Some(p) ==> 0 <= p < v.len(),
    decreases v.len() - k,
{
    if !(k < 0 || k >= v.len()) && v[k]@ != name {
        lemma_theme_pos_in_range(v, name, k + 1);
    }
}

/// The key a toolbar label names: the character before the closing `)`,
/// pressed with Shift when it is a capital letter.
pub open spec fn label_key(label: Seq<char>) -> Key {
    let c = label[label.len() - 3];
    Key {
        code: KeyCode::Char(c),
        mods: if 'A' <= c && c <= 'Z' { Modifiers::Shift } else { Modifiers::Plain },
        press: true,
    }
}

/// The keyboard command that does what a toolbar button does.
pub open spec fn button_command(b: ButtonAction) -> Command {
    match b {
        ButtonAction::RulesSyncAll => Command::List(Tab::Rules, ListOp::SyncAll),
        ButtonAction::RulesImport => Command::List(Tab::Rules, ListOp::Import),
        ButtonAction::RulesDelete => Command::List(Tab::Rules, ListOp::Delete),
        ButtonAction::PluginsNew => Command::Plugins(PluginsOp::New),
        ButtonAction::PluginsDelete => Command::Plugins(PluginsOp::Delete),
    }
}

/// Every toolbar button does what its label says: on the tab that shows
/// it, with nothing on top, the key named in the label's brackets means
/// the same command as the button (so `+ New (n)` opens the catalog and
/// `Delete (d)` deletes).
pub proof fn lemma_toolbar_buttons_match_their_keys(app: App, i: int)
    requires
        layer_of(app) == Layer::Main(app.active_tab, app.show_activity),
        0 <= i < toolbar_spec(app.active_tab).len(),
    ensures
        key_command_spec(app, label_key(toolbar_spec(app.active_tab)[i].0)) == button_command(
            toolbar_spec(app.active_tab)[i].1,
        ),
{
    reveal_strlit(" Sync all (S) ");
    reveal_strlit(" Import live (i) ");
    reveal_strlit(" Delete (d) ");
    reveal_strlit(" + New (n) ");
}

/// A digit key only ever jumps to a tab shown in the strip.
pub proof fn lemma_jump_is_in_range(app: App, k: Key, i: usize)
    requires
        key_command_spec(app, k) == Command::JumpTab(i),
    ensures
        i < tab_count(),
{
}

} // verus!

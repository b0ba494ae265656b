//! Installing from the curated catalogs and the search popups, the pnpx
//! installer popup, and the startup rescans.

use vstd::prelude::*;
use crate::app::{pushed, toasts_view, App};
use crate::app_actions::{only_mcp, only_skills, RunMode};
use crate::model::{McpHit, SkillHit};
use crate::tasks::{job_started, Reloads, ToastLevel};
use crate::text::{cat, cat3, chars_of, decimal, fmt_u64, push_char, same_text, trim, trimmed, wrap, wrap_step};
use crate::views::{InstallLogMode, InstallLogPopup, SearchFocus, SearchMcpPopup, SearchSkillsPopup, SearchStatus};

verus! {

/// A lower-case hexadecimal digit.
pub open spec fn is_lower_hex(c: char) -> bool {
    ('0' <= c && c <= '9') || ('a' <= c && c <= 'f')
}

/// A fresh random id, `Uuid::new_v4().to_string()`: the hyphenated
/// lower-case form of a version-4 UUID (36 characters, hyphens at 8, 13, 18
/// and 23, lower-case hex digits elsewhere, version digit `4` at 14 and the
/// RFC 4122 variant, one of `8`, `9`, `a`, `b`, at 19). The random bits are
/// not described.
#[verifier::external_body]
fn new_uuid() -> (r: String)
    ensures
        r@.len() == 36,
        r@[8] == '-' && r@[13] == '-' && r@[18] == '-' && r@[23] == '-',
        forall|i: int| 0 <= i < 36 && i != 8 && i != 13 && i != 18 && i != 23 ==> is_lower_hex(#[trigger] r@[i]),
        r@[14] == '4',
        r@[19] == '8' || r@[19] == '9' || r@[19] == 'a' || r@[19] == 'b',
{
    uuid::Uuid::new_v4().to_string()
}

/// The current wall-clock time, `chrono::Utc::now().timestamp_millis()`
/// (milliseconds since the Unix epoch). `Utc::now` measures the time since
/// the epoch (it panics when the system clock reads before 1970), so the
/// value is not negative; nothing else is promised of it.
#[verifier::external_body]
fn now_millis() -> (r: i64)
    ensures
        r >= 0,
{
    chrono::Utc::now().timestamp_millis()
}

/// Where a new MCP server's config comes from.
#[derive(Debug)]
pub enum McpSource {
    /// A curated preset, with its command resolved for this platform.
    Preset { command: String, args: Vec<String>, homepage: String, description: String },
    /// The `index`-th hit of the Smithery search; the host holds its config.
    Hit { index: usize },
}

/// A new MCP server row, disabled for every agent.
#[derive(Debug)]
pub struct NewMcpServer {
    pub id: String,
    pub name: String,
    pub source: McpSource,
    pub enabled: Vec<bool>,
    pub created_at: i64,
    pub updated_at: i64,
}

/// A skill repository to register (and then clone).
#[derive(Debug)]
pub struct RepoAdd {
    /// `owner/repo` argument.
    pub arg: String,
    pub branch: String,
    /// Name used in toasts and in the job name.
    pub label: String,
    /// Picked from the search popup rather than the curated catalog.
    pub from_search: bool,
}

/// Next step of the skills search popup's Enter.
#[derive(Debug)]
pub enum SearchStep {
    Nothing,
    /// Run the search for this (trimmed) query.
    Query(String),
    /// Register this repository.
    Install(RepoAdd),
}

/// Next step of the MCP search popup's Enter.
#[derive(Debug)]
pub enum McpSearchStep {
    Nothing,
    Query(String),
    Install(NewMcpServer),
}

/// Which package runner the machine offers for installing skill packages.
#[derive(Debug, Clone, Copy, PartialEq, Eq, Structural)]
pub enum InstallMethod {
    /// Neither Node nor a package runner was found.
    Missing,
    NodeOnly,
    Pnpm,
    Npm,
}

/// What closing the installer popup leads to.
#[derive(Debug)]
pub enum CloseStep {
    Nothing,
    /// pnpm just got installed: install this pending `owner/repo` now.
    InstallPending(String),
    /// The popup closed: rescan the live skill directories.
    Rescan,
}

/// `n` flags, all off.
pub open spec fn all_off(n: nat) -> Seq<bool> {
    Seq::new(n, |i: int| false)
}

fn off_flags(n: usize) -> (r: Vec<bool>)
    ensures
        r@ == all_off(n as nat),
{
    let mut v: Vec<bool> = Vec::new();
    for i in 0..n
        invariant
            v@ == all_off(i as nat),
    {
        v.push(false);
        assert(v@ =~= all_off((i + 1) as nat));
    }
    v
}

fn copy_strings(v: &Vec<String>) -> (r: Vec<String>)
    ensures
        r@ == v@,
{
    let mut out: Vec<String> = Vec::new();
    let n = v.len();
    for i in 0..n
        invariant
            n == v@.len(),
            out@ == v@.take(i as int),
    {
        out.push(v[i].clone());
        assert(out@ =~= v@.take(i + 1));
    }
    assert(v@.take(n as int) =~= v@);
    out
}

/// Text of the job "Clone …" for a repository label.
pub open spec fn clone_job(label: Seq<char>) -> Seq<char> {
    "Clone "@ + label
}

/// What `App::search_popup_cancel` does: `before` is the app before the call,
/// `after` the app after it.
pub open spec fn search_popup_cancel_effect(before: App, after: App) -> bool {
    after == (App { search_popup: None, ..before })
}

/// What `App::search_popup_toggle_focus` does: `before` is the app before the call,
/// `after` the app after it.
pub open spec fn search_popup_toggle_focus_effect(before: App, after: App) -> bool {
    match before.search_popup {
        None => after == before,
        Some(p) => after.search_popup == Some(SearchSkillsPopup {
            focus: if p.focus == SearchFocus::Query { SearchFocus::Results } else { SearchFocus::Query },
            ..p
        }) && after == (App { search_popup: after.search_popup, ..before }),
    }
}

/// What `App::search_popup_move` does: `before` is the app before the call,
/// `after` the app after it.
pub open spec fn search_popup_move_effect(before: App, after: App, delta: i32) -> bool {
    match before.search_popup {
        Some(p) => if p.results@.len() > 0 {
            after.search_popup == Some(SearchSkillsPopup {
                cursor: wrap(p.cursor as int, delta as int, p.results@.len() as int) as usize,
                ..p
            }) && after == (App { search_popup: after.search_popup, ..before })
        } else {
            after == before
        },
        None => after == before,
    }
}

/// What `App::search_popup_pop` does: `before` is the app before the call,
/// `after` the app after it.
pub open spec fn search_popup_pop_effect(before: App, after: App) -> bool {
    match before.search_popup {
        None => after == before,
        Some(p) => after.search_popup matches Some(q) && q.query@ == (if p.query@.len() == 0 {
            p.query@
        } else {
            p.query@.drop_last()
        }) && q.focus == SearchFocus::Query && q.results == p.results && q.cursor == p.cursor
            && q.status == p.status && after == (App { search_popup: after.search_popup, ..before }),
    }
}

/// What `App::search_popup_push` does: `before` is the app before the call,
/// `after` the app after it.
pub open spec fn search_popup_push_effect(before: App, after: App, c: char) -> bool {
    match before.search_popup {
        None => after == before,
        Some(p) => after.search_popup matches Some(q) && q.query@ == p.query@.push(c)
            && q.focus == SearchFocus::Query && q.results == p.results && q.cursor == p.cursor
            && q.status == p.status && after == (App { search_popup: after.search_popup, ..before }),
    }
}

/// What `App::search_popup_enter` does: `before` is the app before the call,
/// `after` the app after it, `r` what it returns.
pub open spec fn search_popup_enter_effect(before: App, after: App, r: SearchStep) -> bool {
    match before.search_popup {
        None => r is Nothing && after == before,
        Some(p) => if p.focus == SearchFocus::Query {
            if trimmed(p.query@).len() == 0 {
                &&& r is Nothing
                &&& (after.search_popup matches Some(q) && (q.status matches SearchStatus::Error(m)
                    && m@ == "type a query first"@) && q.query == p.query && q.results == p.results
                    && q.cursor == p.cursor && q.focus == p.focus)
                &&& after == (App { search_popup: after.search_popup, ..before })
            } else {
                r matches SearchStep::Query(s) && s@ == trimmed(p.query@) && after.search_popup
                    == Some(SearchSkillsPopup {
                    status: SearchStatus::Loading,
                    results: after.search_popup->0.results,
                    cursor: 0,
                    ..p
                }) && after.search_popup->0.results@.len() == 0 && after == (App {
                    search_popup: after.search_popup,
                    ..before
                })
            }
        } else if p.cursor < p.results@.len() {
            let hit = p.results@[p.cursor as int];
            r matches SearchStep::Install(a) && a.arg == hit.add_arg && a.branch == hit.repo_branch
                && a.label == hit.name && a.from_search && after == (App { search_popup: None, ..before })
        } else {
            r is Nothing && after == before
        },
    }
}

/// What `App::mcp_search_popup_cancel` does: `before` is the app before the call,
/// `after` the app after it.
pub open spec fn mcp_search_popup_cancel_effect(before: App, after: App) -> bool {
    after == (App { mcp_search_popup: None, ..before })
}

/// What `App::mcp_search_popup_toggle_focus` does: `before` is the app before the call,
/// `after` the app after it.
pub open spec fn mcp_search_popup_toggle_focus_effect(before: App, after: App) -> bool {
    match before.mcp_search_popup {
        None => after == before,
        Some(p) => after.mcp_search_popup == Some(SearchMcpPopup {
            focus: if p.focus == SearchFocus::Query { SearchFocus::Results } else { SearchFocus::Query },
            ..p
        }) && after == (App { mcp_search_popup: after.mcp_search_popup, ..before }),
    }
}

/// What `App::mcp_search_popup_move` does: `before` is the app before the call,
/// `after` the app after it.
pub open spec fn mcp_search_popup_move_effect(before: App, after: App, delta: i32) -> bool {
    match before.mcp_search_popup {
        Some(p) => if p.results@.len() > 0 {
            after.mcp_search_popup == Some(SearchMcpPopup {
                cursor: wrap(p.cursor as int, delta as int, p.results@.len() as int) as usize,
                ..p
            }) && after == (App { mcp_search_popup: after.mcp_search_popup, ..before })
        } else {
            after == before
        },
        None => after == before,
    }
}

/// What `App::mcp_search_popup_pop` does: `before` is the app before the call,
/// `after` the app after it.
pub open spec fn mcp_search_popup_pop_effect(before: App, after: App) -> bool {
    match before.mcp_search_popup {
        None => after == before,
        Some(p) => after.mcp_search_popup matches Some(q) && q.query@ == (if p.query@.len() == 0 {
            p.query@
        } else {
            p.query@.drop_last()
        }) && q.focus == SearchFocus::Query && q.results == p.results && q.cursor == p.cursor
            && q.status == p.status && after == (App { mcp_search_popup: after.mcp_search_popup, ..before }),
    }
}

/// What `App::mcp_search_popup_push` does: `before` is the app before the call,
/// `after` the app after it.
pub open spec fn mcp_search_popup_push_effect(before: App, after: App, c: char) -> bool {
    match before.mcp_search_popup {
        None => after == before,
        Some(p) => after.mcp_search_popup matches Some(q) && q.query@ == p.query@.push(c)
            && q.focus == SearchFocus::Query && q.results == p.results && q.cursor == p.cursor
            && q.status == p.status && after == (App { mcp_search_popup: after.mcp_search_popup, ..before }),
    }
}

/// What `App::mcp_search_popup_enter` does: `before` is the app before the call,
/// `after` the app after it, `r` what it returns.
pub open spec fn mcp_search_popup_enter_effect(before: App, after: App, r: McpSearchStep) -> bool {
    match before.mcp_search_popup {
        None => r is Nothing && after == before,
        Some(p) => if p.focus == SearchFocus::Query {
            if trimmed(p.query@).len() == 0 {
                &&& r is Nothing
                &&& (after.mcp_search_popup matches Some(q) && (q.status matches SearchStatus::Error(m)
                    && m@ == "type a query first"@) && q.query == p.query && q.results == p.results
                    && q.cursor == p.cursor && q.focus == p.focus)
                &&& after == (App { mcp_search_popup: after.mcp_search_popup, ..before })
            } else {
                r matches McpSearchStep::Query(s) && s@ == trimmed(p.query@) && after.mcp_search_popup
                    == Some(SearchMcpPopup {
                    status: SearchStatus::Loading,
                    results: after.mcp_search_popup->0.results,
                    cursor: 0,
                    ..p
                }) && after.mcp_search_popup->0.results@.len() == 0 && after == (App {
                    mcp_search_popup: after.mcp_search_popup,
                    ..before
                })
            }
        } else if p.cursor < p.results@.len() {
            let hit = p.results@[p.cursor as int];
            r matches McpSearchStep::Install(s) && s.name == hit.qualified_name && s.source == (McpSource::Hit {
                index: p.cursor,
            }) && s.enabled@ == all_off(before.agents@.len()) && s.created_at == s.updated_at
                && s.id@.len() == 36 && after == (App { mcp_search_popup: None, ..before })
        } else {
            r is Nothing && after == before
        },
    }
}

/// What `App::open_search_mcp` does: `before` is the app before the call,
/// `after` the app after it.
pub open spec fn open_search_mcp_effect(before: App, after: App) -> bool {
    &&& after.mcp_search_popup matches Some(p) && p.query@.len() == 0 && p.results@.len() == 0
        && p.cursor == 0 && p.status is Idle && p.focus == SearchFocus::Query
    &&& after == (App { mcp_search_popup: after.mcp_search_popup, ..before })
}

/// What `App::open_search_skills` does: `before` is the app before the call,
/// `after` the app after it.
pub open spec fn open_search_skills_effect(before: App, after: App) -> bool {
    &&& after.search_popup matches Some(p) && p.query@.len() == 0 && p.results@.len() == 0
        && p.cursor == 0 && p.status is Idle && p.focus == SearchFocus::Query
    &&& after == (App { search_popup: after.search_popup, ..before })
}

/// What `App::install_log_decline_pnpm` does: `before` is the app before the call,
/// `after` the app after it, `r` what it returns.
pub open spec fn install_log_decline_pnpm_effect(before: App, after: App, r: Option<String>) -> bool {
    match before.install_log_popup {
        None => r is None && after == before,
        Some(p) => match p.pending_skill {
            None => r is None && after == (App { install_log_popup: None, ..before }),
            Some(s) => r == Some(s) && toasts_view(after.toasts@) == pushed(
                before.toasts@,
                "Falling back to git clone for "@ + s@,
                ToastLevel::Info,
                before.now_ms,
            ) && after == (App { install_log_popup: None, toasts: after.toasts, ..before }),
        },
    }
}

/// What `App::push_github_backup` does: `before` is the app before the call,
/// `after` the app after it, `r` what it returns.
pub open spec fn push_github_backup_effect(before: App, after: App, r: Option<u64>) -> bool {
    ({
        let gh = before.settings.github_backup;
        if !gh.enabled || gh.repo_url@.len() == 0 {
            &&& r is None
            &&& toasts_view(after.toasts@) == pushed(
                before.toasts@,
                "GitHub backup is disabled — enable it and set a repo URL in Settings"@,
                ToastLevel::Warning,
                before.now_ms,
            )
            &&& after == (App { toasts: after.toasts, ..before })
        } else {
            &&& r == Some(before.tasks.next_id)
            &&& job_started(before.tasks, after.tasks, "Push backup"@, before.now_ms)
            &&& toasts_view(after.toasts@) == pushed(
                before.toasts@,
                "Pushing backup in background…"@,
                ToastLevel::Info,
                before.now_ms,
            )
            &&& after == (App { toasts: after.toasts, tasks: after.tasks, ..before })
        }
    })
}

/// What `App::install_mcp_preset` returns (`r`) on the app `app`.
pub open spec fn install_mcp_preset_result(app: App, idx: usize, r: Option<NewMcpServer>) -> bool {
    &&& idx >= app.catalog.mcp@.len() ==> r is None
    &&& idx < app.catalog.mcp@.len() ==> (r matches Some(s) && ({
        let p = app.catalog.mcp@[idx as int];
        &&& s.name == p.name
        &&& s.source == (McpSource::Preset {
            command: p.command,
            args: s.source->args,
            homepage: p.homepage,
            description: p.description,
        })
        &&& s.source->args@ == p.args@
        &&& s.enabled@ == all_off(app.agents@.len())
        &&& s.created_at == s.updated_at
        &&& s.id@.len() == 36
    }))
}

/// What `App::install_skill_repo_preset` returns (`r`) on the app `app`.
pub open spec fn install_skill_repo_preset_result(app: App, idx: usize, r: Option<RepoAdd>) -> bool {
    &&& idx >= app.catalog.skill_repos@.len() ==> r is None
    &&& idx < app.catalog.skill_repos@.len() ==> (r matches Some(a) && ({
        let p = app.catalog.skill_repos@[idx as int];
        a.arg == p.add_arg && a.branch == p.branch && a.label == p.display_name && !a.from_search
    }))
}

/// What `App::install_log_confirm_pnpm` returns (`r`) on the app `app`.
pub open spec fn install_log_confirm_pnpm_result(app: App, r: bool) -> bool {
    r == (app.install_log_popup matches Some(p) && p.mode is ConfirmPnpm)
}

impl App {
    /// The new server row for curated MCP preset `idx` (none past the end):
    /// named after the preset, with its resolved command, disabled for every
    /// agent, with a fresh id and the current time.
    pub fn install_mcp_preset(&self, idx: usize) -> (r: Option<NewMcpServer>)
        ensures
            install_mcp_preset_result(*self, idx, r),
    {
        if idx >= self.catalog.mcp.len() {
            return None;
        }
        let p = &self.catalog.mcp[idx];
        let now = now_millis();
        Some(NewMcpServer {
            id: new_uuid(),
            name: p.name.clone(),
            source: McpSource::Preset {
                command: p.command.clone(),
                args: copy_strings(&p.args),
                homepage: p.homepage.clone(),
                description: p.description.clone(),
            },
            enabled: off_flags(self.agents.len()),
            created_at: now,
            updated_at: now,
        })
    }

    /// Outcome of storing a new MCP server row (its stored name on
    /// success); `from_search` picks the wording of the toast.
    pub fn mcp_server_added(&mut self, from_search: bool, result: Result<String, String>) -> (r: Reloads)
        ensures
            match result {
                Ok(name) => r == only_mcp() && toasts_view(final(self).toasts@) == pushed(
                    old(self).toasts@,
                    (if from_search { "Added MCP \""@ } else { "Added MCP preset \""@ }) + name@
                        + "\" (disabled — enable per agent via a)"@,
                    ToastLevel::Success,
                    old(self).now_ms,
                ),
                Err(e) => r == Reloads::nothing_spec() && toasts_view(final(self).toasts@) == pushed(
                    old(self).toasts@,
                    "Add failed: "@ + e@,
                    ToastLevel::Error,
                    old(self).now_ms,
                ),
            },
            *final(self) == (App { toasts: final(self).toasts, ..*old(self) }),
    {
        match result {
            Ok(name) => {
                let head = if from_search { "Added MCP \"" } else { "Added MCP preset \"" };
                self.push_toast(cat3(head, name.as_str(), "\" (disabled — enable per agent via a)"), ToastLevel::Success);
                Reloads { mcp: true, ..Reloads::nothing() }
            },
            Err(e) => {
                self.push_toast(cat("Add failed: ", e.as_str()), ToastLevel::Error);
                Reloads::nothing()
            },
        }
    }

    /// The repository to register for curated skill repo `idx` (none past
    /// the end).
    pub fn install_skill_repo_preset(&self, idx: usize) -> (r: Option<RepoAdd>)
        ensures
            install_skill_repo_preset_result(*self, idx, r),
    {
        if idx >= self.catalog.skill_repos.len() {
            return None;
        }
        let p = &self.catalog.skill_repos[idx];
        Some(RepoAdd {
            arg: p.add_arg.clone(),
            branch: p.branch.clone(),
            label: p.display_name.clone(),
            from_search: false,
        })
    }

    /// Outcome of registering a repository. A failure raises an error toast
    /// and stops. Otherwise the clone runs as the background job
    /// `Clone <label>` (with an info toast) when `background`, else inline.
    pub fn repo_added(&mut self, add: &RepoAdd, result: Result<String, String>, background: bool) -> (r: Option<RunMode>)
        requires
            old(self).tasks.next_id < u64::MAX,
        ensures
            match result {
                Err(e) => r is None && toasts_view(final(self).toasts@) == pushed(
                    old(self).toasts@,
                    "Add failed: "@ + e@,
                    ToastLevel::Error,
                    old(self).now_ms,
                ) && *final(self) == (App { toasts: final(self).toasts, ..*old(self) }),
                Ok(_) => if background {
                    &&& r == Some(RunMode::Background(old(self).tasks.next_id))
                    &&& job_started(old(self).tasks, final(self).tasks, clone_job(add.label@), old(self).now_ms)
                    &&& toasts_view(final(self).toasts@) == pushed(
                        old(self).toasts@,
                        (if add.from_search { "Adding "@ } else { "Added "@ }) + add.label@ + " — cloning in background…"@,
                        ToastLevel::Info,
                        old(self).now_ms,
                    )
                    &&& *final(self) == (App { toasts: final(self).toasts, tasks: final(self).tasks, ..*old(self) })
                } else {
                    r == Some(RunMode::Inline) && *final(self) == *old(self)
                },
            },
    {
        match result {
            Err(e) => {
                self.push_toast(cat("Add failed: ", e.as_str()), ToastLevel::Error);
                None
            },
            Ok(_) => {
                if background {
                    let id = self.submit_task(cat("Clone ", add.label.as_str()));
                    let head = if add.from_search { "Adding " } else { "Added " };
                    self.push_toast(cat3(head, add.label.as_str(), " — cloning in background…"), ToastLevel::Info);
                    Some(RunMode::Background(id))
                } else {
                    Some(RunMode::Inline)
                }
            },
        }
    }

    /// Outcome of cloning a registered repository inline (skills found).
    pub fn repo_cloned(&mut self, add: &RepoAdd, result: Result<usize, String>) -> (r: Reloads)
        ensures
            match result {
                Ok(n) => r == only_skills() && toasts_view(final(self).toasts@) == pushed(
                    old(self).toasts@,
                    "Added "@ + add.label@ + " — "@ + decimal(n as nat) + " skill(s)"@,
                    ToastLevel::Success,
                    old(self).now_ms,
                ),
                Err(e) => r == Reloads::nothing_spec() && toasts_view(final(self).toasts@) == pushed(
                    old(self).toasts@,
                    "Clone failed: "@ + e@,
                    ToastLevel::Error,
                    old(self).now_ms,
                ),
            },
            *final(self) == (App { toasts: final(self).toasts, ..*old(self) }),
    {
        match result {
            Ok(n) => {
                let d = fmt_u64(n as u64);
                let mut m = cat3("Added ", add.label.as_str(), " — ");
                m.append(d.as_str());
                m.append(" skill(s)");
                self.push_toast(m, ToastLevel::Success);
                Reloads { skills: true, ..Reloads::nothing() }
            },
            Err(e) => {
                self.push_toast(cat("Clone failed: ", e.as_str()), ToastLevel::Error);
                Reloads::nothing()
            },
        }
    }

    /// Opens the skills.sh search popup, empty, focused on the query.
    pub fn open_search_skills(&mut self)
        ensures
            open_search_skills_effect(*old(self), *final(self)),
    {
        self.search_popup = Some(SearchSkillsPopup {
            query: String::new(),
            results: Vec::new(),
            cursor: 0,
            status: SearchStatus::Idle,
            focus: SearchFocus::Query,
        });
    }

    /// Closes the skills search popup.
    pub fn search_popup_cancel(&mut self)
        ensures
            search_popup_cancel_effect(*old(self), *final(self)),
    {
        self.search_popup = None;
    }

    /// Types into the query (and focuses it).
    pub fn search_popup_push(&mut self, c: char)
        ensures
            search_popup_push_effect(*old(self), *final(self), c),
    {
        if let Some(mut p) = self.search_popup.take() {
            crate::text::push_char(&mut p.query, c);
            p.focus = SearchFocus::Query;
            self.search_popup = Some(p);
        }
    }

    /// Deletes the query's last character (and focuses it).
    pub fn search_popup_pop(&mut self)
        ensures
            search_popup_pop_effect(*old(self), *final(self)),
    {
        if let Some(mut p) = self.search_popup.take() {
            let _ = crate::text::pop_char(&mut p.query);
            p.focus = SearchFocus::Query;
            self.search_popup = Some(p);
        }
    }

    /// Switches focus between the query and the results.
    pub fn search_popup_toggle_focus(&mut self)
        ensures
            search_popup_toggle_focus_effect(*old(self), *final(self)),
    {
        if let Some(mut p) = self.search_popup.take() {
            p.focus = match p.focus {
                SearchFocus::Query => SearchFocus::Results,
                SearchFocus::Results => SearchFocus::Query,
            };
            self.search_popup = Some(p);
        }
    }

    /// Moves the result cursor by `delta`, wrapping; nothing without results.
    pub fn search_popup_move(&mut self, delta: i32)
        requires
            old(self).search_popup matches Some(p) ==> p.results@.len() <= i32::MAX && p.cursor <= i32::MAX
                && p.cursor + delta <= i32::MAX,
        ensures
            search_popup_move_effect(*old(self), *final(self), delta),
    {
        if let Some(mut p) = self.search_popup.take() {
            let n = p.results.len();
            if n > 0 {
                p.cursor = wrap_step(p.cursor, delta, n);
            }
            self.search_popup = Some(p);
        }
    }

    /// Enter in the skills search popup. On the query: a blank query shows
    /// an error; otherwise the popup goes to loading (results cleared) and
    /// the trimmed query is returned to run. On the results: the popup
    /// closes and the highlighted hit's repository is returned to register.
    pub fn search_popup_enter(&mut self) -> (r: SearchStep)
        ensures
            search_popup_enter_effect(*old(self), *final(self), r),
    {
        let mut p = match self.search_popup.take() {
            Some(p) => p,
            None => return SearchStep::Nothing,
        };
        match p.focus {
            SearchFocus::Query => {
                let q = trim(p.query.as_str());
                if q.as_str().is_empty() {
                    p.status = SearchStatus::Error(String::from_str("type a query first"));
                    self.search_popup = Some(p);
                    return SearchStep::Nothing;
                }
                p.status = SearchStatus::Loading;
                p.results = Vec::new();
                p.cursor = 0;
                self.search_popup = Some(p);
                SearchStep::Query(q)
            },
            SearchFocus::Results => {
                if p.cursor < p.results.len() {
                    let hit = &p.results[p.cursor];
                    let add = RepoAdd {
                        arg: hit.add_arg.clone(),
                        branch: hit.repo_branch.clone(),
                        label: hit.name.clone(),
                        from_search: true,
                    };
                    SearchStep::Install(add)
                } else {
                    self.search_popup = Some(p);
                    SearchStep::Nothing
                }
            },
        }
    }

    /// Delivers a finished skills search to the open popup: hits are shown
    /// (cursor on the first, focus on the results), or the error text.
    pub fn drain_search_inbox(&mut self, outcome: Option<Result<Vec<SkillHit>, String>>)
        ensures
            match (old(self).search_popup, outcome) {
                (Some(p), Some(Ok(hits))) => final(self).search_popup == Some(SearchSkillsPopup {
                    results: hits,
                    cursor: 0,
                    status: SearchStatus::Loaded,
                    focus: SearchFocus::Results,
                    ..p
                }) && *final(self) == (App { search_popup: final(self).search_popup, ..*old(self) }),
                (Some(p), Some(Err(e))) => final(self).search_popup == Some(SearchSkillsPopup {
                    status: SearchStatus::Error(e),
                    ..p
                }) && *final(self) == (App { search_popup: final(self).search_popup, ..*old(self) }),
                _ => *final(self) == *old(self),
            },
    {
        let mut p = match self.search_popup.take() {
            Some(p) => p,
            None => return,
        };
        match outcome {
            Some(Ok(hits)) => {
                p.results = hits;
                p.cursor = 0;
                p.status = SearchStatus::Loaded;
                p.focus = SearchFocus::Results;
            },
            Some(Err(e)) => {
                p.status = SearchStatus::Error(e);
            },
            None => {},
        }
        self.search_popup = Some(p);
    }

    /// Opens the Smithery search popup, empty, focused on the query.
    pub fn open_search_mcp(&mut self)
        ensures
            open_search_mcp_effect(*old(self), *final(self)),
    {
        self.mcp_search_popup = Some(SearchMcpPopup {
            query: String::new(),
            results: Vec::new(),
            cursor: 0,
            status: SearchStatus::Idle,
            focus: SearchFocus::Query,
        });
    }

    /// Closes the Smithery search popup.
    pub fn mcp_search_popup_cancel(&mut self)
        ensures
            mcp_search_popup_cancel_effect(*old(self), *final(self)),
    {
        self.mcp_search_popup = None;
    }

    /// Types into the query (and focuses it).
    pub fn mcp_search_popup_push(&mut self, c: char)
        ensures
            mcp_search_popup_push_effect(*old(self), *final(self), c),
    {
        if let Some(mut p) = self.mcp_search_popup.take() {
            crate::text::push_char(&mut p.query, c);
            p.focus = SearchFocus::Query;
            self.mcp_search_popup = Some(p);
        }
    }

    /// Deletes the query's last character (and focuses it).
    pub fn mcp_search_popup_pop(&mut self)
        ensures
            mcp_search_popup_pop_effect(*old(self), *final(self)),
    {
        if let Some(mut p) = self.mcp_search_popup.take() {
            let _ = crate::text::pop_char(&mut p.query);
            p.focus = SearchFocus::Query;
            self.mcp_search_popup = Some(p);
        }
    }

    /// Switches focus between the query and the results.
    pub fn mcp_search_popup_toggle_focus(&mut self)
        ensures
            mcp_search_popup_toggle_focus_effect(*old(self), *final(self)),
    {
        if let Some(mut p) = self.mcp_search_popup.take() {
            p.focus = match p.focus {
                SearchFocus::Query => SearchFocus::Results,
                SearchFocus::Results => SearchFocus::Query,
            };
            self.mcp_search_popup = Some(p);
        }
    }

    /// Moves the result cursor by `delta`, wrapping; nothing without results.
    pub fn mcp_search_popup_move(&mut self, delta: i32)
        requires
            old(self).mcp_search_popup matches Some(p) ==> p.results@.len() <= i32::MAX && p.cursor <= i32::MAX
                && p.cursor + delta <= i32::MAX,
        ensures
            mcp_search_popup_move_effect(*old(self), *final(self), delta),
    {
        if let Some(mut p) = self.mcp_search_popup.take() {
            let n = p.results.len();
            if n > 0 {
                p.cursor = wrap_step(p.cursor, delta, n);
            }
            self.mcp_search_popup = Some(p);
        }
    }

    /// Enter in the Smithery popup: as for skills, but a highlighted hit
    /// becomes a new server row named by its qualified name, disabled for
    /// every agent.
    pub fn mcp_search_popup_enter(&mut self) -> (r: McpSearchStep)
        ensures
            mcp_search_popup_enter_effect(*old(self), *final(self), r),
    {
        let mut p = match self.mcp_search_popup.take() {
            Some(p) => p,
            None => return McpSearchStep::Nothing,
        };
        match p.focus {
            SearchFocus::Query => {
                let q = trim(p.query.as_str());
                if q.as_str().is_empty() {
                    p.status = SearchStatus::Error(String::from_str("type a query first"));
                    self.mcp_search_popup = Some(p);
                    return McpSearchStep::Nothing;
                }
                p.status = SearchStatus::Loading;
                p.results = Vec::new();
                p.cursor = 0;
                self.mcp_search_popup = Some(p);
                McpSearchStep::Query(q)
            },
            SearchFocus::Results => {
                if p.cursor < p.results.len() {
                    let now = now_millis();
                    let s = NewMcpServer {
                        id: new_uuid(),
                        name: p.results[p.cursor].qualified_name.clone(),
                        source: McpSource::Hit { index: p.cursor },
                        enabled: off_flags(self.agents.len()),
                        created_at: now,
                        updated_at: now,
                    };
                    McpSearchStep::Install(s)
                } else {
                    self.mcp_search_popup = Some(p);
                    McpSearchStep::Nothing
                }
            },
        }
    }

    /// Delivers a finished Smithery search to the open popup.
    pub fn drain_mcp_search_inbox(&mut self, outcome: Option<Result<Vec<McpHit>, String>>)
        ensures
            match (old(self).mcp_search_popup, outcome) {
                (Some(p), Some(Ok(hits))) => final(self).mcp_search_popup == Some(SearchMcpPopup {
                    results: hits,
                    cursor: 0,
                    status: SearchStatus::Loaded,
                    focus: SearchFocus::Results,
                    ..p
                }) && *final(self) == (App { mcp_search_popup: final(self).mcp_search_popup, ..*old(self) }),
                (Some(p), Some(Err(e))) => final(self).mcp_search_popup == Some(SearchMcpPopup {
                    status: SearchStatus::Error(e),
                    ..p
                }) && *final(self) == (App { mcp_search_popup: final(self).mcp_search_popup, ..*old(self) }),
                _ => *final(self) == *old(self),
            },
    {
        let mut p = match self.mcp_search_popup.take() {
            Some(p) => p,
            None => return,
        };
        match outcome {
            Some(Ok(hits)) => {
                p.results = hits;
                p.cursor = 0;
                p.status = SearchStatus::Loaded;
                p.focus = SearchFocus::Results;
            },
            Some(Err(e)) => {
                p.status = SearchStatus::Error(e);
            },
            None => {},
        }
        self.mcp_search_popup = Some(p);
    }
}

/// Result text of the background clone job: `<n> skill(s)`.
pub fn clone_task_message(n: usize) -> (r: String)
    ensures
        r@ == decimal(n as nat) + " skill(s)"@,
{
    let mut m = fmt_u64(n as u64);
    m.append(" skill(s)");
    m
}

/// Result text of the background rescan: empty when nothing new turned up
/// (the job then stays quiet), else `<n> new`.
pub fn rescan_task_message(n: usize) -> (r: String)
    ensures
        r@ == (if n == 0 { Seq::<char>::empty() } else { decimal(n as nat) + " new"@ }),
{
    if n == 0 {
        return String::new();
    }
    let mut m = fmt_u64(n as u64);
    m.append(" new");
    m
}

/// Result text of the background hash recomputation: empty when nothing
/// needed hashing, else `<n> hashed`.
pub fn hash_task_message(n: usize) -> (r: String)
    ensures
        r@ == (if n == 0 { Seq::<char>::empty() } else { decimal(n as nat) + " hashed"@ }),
{
    if n == 0 {
        return String::new();
    }
    let mut m = fmt_u64(n as u64);
    m.append(" hashed");
    m
}

/// At most the first `n` characters of `s`.
pub open spec fn prefix(s: Seq<char>, n: nat) -> Seq<char> {
    if s.len() <= n { s } else { s.take(n as int) }
}

/// Result text of the backup push: `commit ` and the first eight characters
/// of the new commit's id.
pub fn push_task_message(oid: &str) -> (r: String)
    ensures
        r@ == "commit "@ + prefix(oid@, 8),
{
    let cs = chars_of(oid);
    let n: usize = if cs.len() < 8 { cs.len() } else { 8 };
    let mut m = String::from_str("commit ");
    proof {
        reveal_strlit("commit ");
    }
    let ghost head = m@;
    for i in 0..n
        invariant
            n <= cs@.len(),
            cs@ == oid@,
            n == (if cs@.len() < 8 { cs@.len() } else { 8 }),
            m@ == head + cs@.take(i as int),
    {
        push_char(&mut m, cs[i]);
        assert(cs@.take(i + 1) =~= cs@.take(i as int).push(cs@[i as int]));
    }
    assert(cs@.take(n as int) =~= prefix(oid@, 8));
    m
}

impl App {
    /// The Skills-tab `p` shortcut for `owner_repo`, given what the machine
    /// offers. Without pnpm or npm the popup asks whether to install pnpm
    /// (and the result is `false`); with one of them the result is `true`
    /// and the host starts `pnpx skills add` and shows it with
    /// `show_install_stream`.
    pub fn install_skill_via_pnpx(&mut self, owner_repo: &str, method: InstallMethod) -> (start: bool)
        ensures
            start == (method == InstallMethod::Pnpm || method == InstallMethod::Npm),
            start ==> *final(self) == *old(self),
            !start ==> (final(self).install_log_popup matches Some(p) && (p.mode matches InstallLogMode::ConfirmPnpm {
                owner_repo: o,
            } && o@ == owner_repo@) && (p.pending_skill matches Some(s) && s@ == owner_repo@)),
            !start ==> *final(self) == (App { install_log_popup: final(self).install_log_popup, ..*old(self) }),
    {
        match method {
            InstallMethod::Pnpm | InstallMethod::Npm => true,
            InstallMethod::Missing | InstallMethod::NodeOnly => {
                self.install_log_popup = Some(InstallLogPopup {
                    mode: InstallLogMode::ConfirmPnpm { owner_repo: owner_repo.to_string() },
                    pending_skill: Some(owner_repo.to_string()),
                });
                false
            },
        }
    }

    /// Shows the installer popup tailing the process `title`, started for
    /// `pending` (`owner/repo`).
    pub fn show_install_stream(&mut self, title: String, pending: String)
        ensures
            final(self).install_log_popup == Some(InstallLogPopup {
                mode: InstallLogMode::Streaming { title },
                pending_skill: Some(pending),
            }),
            *final(self) == (App { install_log_popup: final(self).install_log_popup, ..*old(self) }),
    {
        self.install_log_popup = Some(InstallLogPopup {
            mode: InstallLogMode::Streaming { title },
            pending_skill: Some(pending),
        });
    }

    /// "Yes" on the pnpm prompt: whether the host should start the pnpm
    /// installer, which it does only while the popup is asking.
    pub fn install_log_confirm_pnpm(&self) -> (r: bool)
        ensures
            install_log_confirm_pnpm_result(*self, r),
    {
        match &self.install_log_popup {
            Some(p) => match &p.mode {
                InstallLogMode::ConfirmPnpm { .. } => true,
                InstallLogMode::Streaming { .. } => false,
            },
            None => false,
        }
    }

    /// The host started the installer process `title`: the open popup tails
    /// it, keeping the pending `owner/repo`.
    pub fn install_log_stream_started(&mut self, title: String)
        ensures
            match old(self).install_log_popup {
                None => *final(self) == *old(self),
                Some(p) => final(self).install_log_popup == Some(InstallLogPopup {
                    mode: InstallLogMode::Streaming { title },
                    pending_skill: p.pending_skill,
                }) && *final(self) == (App { install_log_popup: final(self).install_log_popup, ..*old(self) }),
            },
    {
        if let Some(mut p) = self.install_log_popup.take() {
            p.mode = InstallLogMode::Streaming { title };
            self.install_log_popup = Some(p);
        }
    }

    /// "No" on the pnpm prompt: the popup closes, and the pending
    /// `owner/repo`, if any, is returned for a git-clone fallback, announced
    /// by an info toast.
    pub fn install_log_decline_pnpm(&mut self) -> (r: Option<String>)
        ensures
            install_log_decline_pnpm_effect(*old(self), *final(self), r),
    {
        let p = match self.install_log_popup.take() {
            Some(p) => p,
            None => return None,
        };
        match p.pending_skill {
            None => None,
            Some(s) => {
                self.push_toast(cat("Falling back to git clone for ", s.as_str()), ToastLevel::Info);
                Some(s)
            },
        }
    }

    /// Outcome of registering the fallback repository `owner_repo`: a
    /// failure raises an error toast; otherwise the clone runs as the
    /// background job `Clone <owner_repo>` when `background`, else inline
    /// (the host clones, then reloads the skills view).
    pub fn fallback_repo_added(&mut self, owner_repo: &str, result: Result<(), String>, background: bool) -> (r: Option<RunMode>)
        requires
            old(self).tasks.next_id < u64::MAX,
        ensures
            match result {
                Err(e) => r is None && toasts_view(final(self).toasts@) == pushed(
                    old(self).toasts@,
                    "Add failed: "@ + e@,
                    ToastLevel::Error,
                    old(self).now_ms,
                ) && *final(self) == (App { toasts: final(self).toasts, ..*old(self) }),
                Ok(_) => if background {
                    &&& r == Some(RunMode::Background(old(self).tasks.next_id))
                    &&& job_started(old(self).tasks, final(self).tasks, clone_job(owner_repo@), old(self).now_ms)
                    &&& *final(self) == (App { tasks: final(self).tasks, ..*old(self) })
                } else {
                    r == Some(RunMode::Inline) && *final(self) == *old(self)
                },
            },
    {
        match result {
            Err(e) => {
                self.push_toast(cat("Add failed: ", e.as_str()), ToastLevel::Error);
                None
            },
            Ok(_) => {
                if background {
                    let id = self.submit_task(cat("Clone ", owner_repo));
                    Some(RunMode::Background(id))
                } else {
                    Some(RunMode::Inline)
                }
            },
        }
    }

    /// Enter or Esc on the installer popup, whose process ended well when
    /// `stream_ok`: the popup closes. After a good pnpm install with an
    /// `owner/repo` pending, that install comes next; in every other case a
    /// rescan of the live skill directories follows, so that whatever got
    /// installed shows up in the Skills tab. Without a popup nothing happens.
    pub fn install_log_close(&mut self, stream_ok: bool) -> (r: CloseStep)
        ensures
            match old(self).install_log_popup {
                None => r is Nothing && *final(self) == *old(self),
                Some(p) => *final(self) == (App { install_log_popup: None, ..*old(self) }) && match p.mode {
                    InstallLogMode::Streaming { title } => if stream_ok && title@ == "install pnpm"@
                        && p.pending_skill is Some {
                        r == CloseStep::InstallPending(p.pending_skill->0)
                    } else {
                        r is Rescan
                    },
                    InstallLogMode::ConfirmPnpm { .. } => r is Rescan,
                },
            },
    {
        let p = match self.install_log_popup.take() {
            Some(p) => p,
            None => return CloseStep::Nothing,
        };
        match p.mode {
            InstallLogMode::ConfirmPnpm { .. } => CloseStep::Rescan,
            InstallLogMode::Streaming { title } => {
                if !stream_ok {
                    return CloseStep::Rescan;
                }
                let pnpm = same_text(title.as_str(), "install pnpm");
                proof {
                    reveal_strlit("install pnpm");
                }
                match p.pending_skill {
                    Some(s) => if pnpm {
                        CloseStep::InstallPending(s)
                    } else {
                        CloseStep::Rescan
                    },
                    None => CloseStep::Rescan,
                }
            },
        }
    }

    /// Starts the rescan of the live skill directories: the quiet
    /// background job "Rescan live skills" when `background`, else inline.
    pub fn rescan_live_skills(&mut self, background: bool) -> (r: RunMode)
        requires
            old(self).tasks.next_id < u64::MAX,
        ensures
            background ==> ({
                &&& r == RunMode::Background(old(self).tasks.next_id)
                &&& job_started(old(self).tasks, final(self).tasks, "Rescan live skills"@, old(self).now_ms)
                &&& *final(self) == (App { tasks: final(self).tasks, ..*old(self) })
            }),
            !background ==> r == RunMode::Inline && *final(self) == *old(self),
    {
        if background {
            RunMode::Background(self.submit_task(String::from_str("Rescan live skills")))
        } else {
            RunMode::Inline
        }
    }

    /// Outcome of an inline rescan that found `n` new skills: an info toast
    /// when any turned up; the skills view reloads unless the scan failed.
    pub fn live_skills_rescanned(&mut self, result: Result<usize, String>) -> (r: Reloads)
        ensures
            match result {
                Ok(n) => r == only_skills() && if n > 0 {
                    toasts_view(final(self).toasts@) == pushed(
                        old(self).toasts@,
                        "Rescan: "@ + decimal(n as nat) + " new skill(s)"@,
                        ToastLevel::Info,
                        old(self).now_ms,
                    ) && *final(self) == (App { toasts: final(self).toasts, ..*old(self) })
                } else {
                    *final(self) == *old(self)
                },
                Err(_) => r == Reloads::nothing_spec() && *final(self) == *old(self),
            },
    {
        match result {
            Ok(n) => {
                if n > 0 {
                    let d = fmt_u64(n as u64);
                    self.push_toast(cat3("Rescan: ", d.as_str(), " new skill(s)"), ToastLevel::Info);
                }
                Reloads { skills: true, ..Reloads::nothing() }
            },
            Err(_) => Reloads::nothing(),
        }
    }

    /// Starts filling in missing skill hashes: the quiet background job
    /// "Recompute skill hashes" when `background`, else inline.
    pub fn recompute_skill_hashes(&mut self, background: bool) -> (r: RunMode)
        requires
            old(self).tasks.next_id < u64::MAX,
        ensures
            background ==> ({
                &&& r == RunMode::Background(old(self).tasks.next_id)
                &&& job_started(old(self).tasks, final(self).tasks, "Recompute skill hashes"@, old(self).now_ms)
                &&& *final(self) == (App { tasks: final(self).tasks, ..*old(self) })
            }),
            !background ==> r == RunMode::Inline && *final(self) == *old(self),
    {
        if background {
            RunMode::Background(self.submit_task(String::from_str("Recompute skill hashes")))
        } else {
            RunMode::Inline
        }
    }

    /// Outcome of an inline hash recomputation that hashed `n` skills: the
    /// skills view reloads only when some were hashed.
    pub fn skill_hashes_recomputed(&self, result: Result<usize, String>) -> (r: Reloads)
        ensures
            r == (match result {
                Ok(n) => if n > 0 { only_skills() } else { Reloads::nothing_spec() },
                Err(_) => Reloads::nothing_spec(),
            }),
    {
        match result {
            Ok(n) => if n > 0 {
                Reloads { skills: true, ..Reloads::nothing() }
            } else {
                Reloads::nothing()
            },
            Err(_) => Reloads::nothing(),
        }
    }

    /// Starts pushing a backup to GitHub as the background job "Push
    /// backup" (with an info toast) and returns its id; a warning instead
    /// while the backup is disabled or has no repository URL.
    pub fn push_github_backup(&mut self) -> (r: Option<u64>)
        requires
            old(self).tasks.next_id < u64::MAX,
        ensures
            push_github_backup_effect(*old(self), *final(self), r),
    {
        let disabled = !self.settings.github_backup.enabled || self.settings.github_backup.repo_url.as_str().is_empty();
        if disabled {
            self.push_toast(
                String::from_str("GitHub backup is disabled — enable it and set a repo URL in Settings"),
                ToastLevel::Warning,
            );
            return None;
        }
        let id = self.submit_task(String::from_str("Push backup"));
        self.push_toast(String::from_str("Pushing backup in background…"), ToastLevel::Info);
        Some(id)
    }
}

} // verus!

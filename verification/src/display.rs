//! What the screen shows, as text and rectangles: key hints, labels of
//! list rows, status lines and popup geometry. Drawing them is the host's
//! part.

use vstd::prelude::*;
use crate::app::App;
use crate::model::{count_on, flag_at, McpHit, Plugin, SyncMethod};
use crate::tab::{Rect, Tab};
use crate::tasks::TaskStatus;
use crate::text::{cat, cat3, decimal, fmt_u64, push_char, truncate, truncated};
use crate::views::{GithubBackup, InstallLogMode, SearchStatus, Settings, SettingsRow, SettingsView};

verus! {

/// Frames of the braille spinner, cycled by the animation counter.
pub open spec fn spinner_frames() -> Seq<&'static str> {
    seq!["⠋", "⠙", "⠹", "⠸", "⠼", "⠴", "⠦", "⠧", "⠇", "⠏"]
}

/// The spinner frame for animation tick `tick`.
pub fn spinner_glyph(tick: u8) -> (r: &'static str)
    ensures
        r == spinner_frames()[tick as int % 10],
{
    let frames: [&'static str; 10] = ["⠋", "⠙", "⠹", "⠸", "⠼", "⠴", "⠦", "⠧", "⠇", "⠏"];
    let i = (tick as usize) % 10;
    proof {
        assert(frames@ =~= spinner_frames());
    }
    frames[i]
}

/// The four-frame spinner of a running job in the activity overlay, which
/// advances every 120 ms of the job's run time.
pub open spec fn activity_frames() -> Seq<&'static str> {
    seq!["⠋", "⠙", "⠹", "⠸"]
}

pub fn activity_spinner(elapsed_ms: u64) -> (r: &'static str)
    ensures
        r == activity_frames()[(elapsed_ms as int / 120) % 4],
{
    let frames: [&'static str; 4] = ["⠋", "⠙", "⠹", "⠸"];
    let i = ((elapsed_ms / 120) % 4) as usize;
    proof {
        assert(frames@ =~= activity_frames());
    }
    frames[i]
}

/// "yes" or "no".
pub fn yes_no(b: bool) -> (r: &'static str)
    ensures
        r@ == (if b { "yes"@ } else { "no"@ }),
{
    if b {
        "yes"
    } else {
        "no"
    }
}

/// Named keyboard shortcuts shown in hints.
#[derive(Debug, Clone, Copy, PartialEq, Eq, Structural)]
pub enum KeyAction {
    CommandPalette,
    Help,
    Quit,
    SelectAll,
    Duplicate,
}

/// The modifier prefix of the platform: `⌘` on macOS, `Ctrl+` elsewhere.
pub open spec fn mod_key_label_spec(macos: bool) -> Seq<char> {
    if macos { "⌘"@ } else { "Ctrl+"@ }
}

/// The modifier prefix; `macos` says whether the host runs on macOS.
pub fn mod_key_label(macos: bool) -> (r: &'static str)
    ensures
        r@ == mod_key_label_spec(macos),
{
    if macos {
        "⌘"
    } else {
        "Ctrl+"
    }
}

/// How a named shortcut is written.
pub open spec fn key_label_spec(action: KeyAction, macos: bool) -> Seq<char> {
    match action {
        KeyAction::CommandPalette => mod_key_label_spec(macos) + "K"@,
        KeyAction::Help => "F1"@,
        KeyAction::Quit => "q"@,
        KeyAction::SelectAll => mod_key_label_spec(macos) + "A"@,
        KeyAction::Duplicate => mod_key_label_spec(macos) + "D"@,
    }
}

/// The label of a named shortcut on this platform.
pub fn key_label(action: KeyAction, macos: bool) -> (r: String)
    ensures
        r@ == key_label_spec(action, macos),
{
    match action {
        KeyAction::CommandPalette => cat(mod_key_label(macos), "K"),
        KeyAction::Help => String::from_str("F1"),
        KeyAction::Quit => String::from_str("q"),
        KeyAction::SelectAll => cat(mod_key_label(macos), "A"),
        KeyAction::Duplicate => cat(mod_key_label(macos), "D"),
    }
}

/// A key hint: the key and what it does.
pub fn hint(key: &str, label: &str) -> (r: (String, String))
    ensures
        r.0@ == key@,
        r.1@ == label@,
{
    (String::from_str(key), String::from_str(label))
}

/// The key hints of the bar under the body: the agent popup's while it is
/// open, else the active tab's.
pub open spec fn hints_spec(tab: Tab, agent_popup_open: bool) -> Seq<(Seq<char>, Seq<char>)> {
    if agent_popup_open {
        seq![("↑↓"@, "move"@), ("Space"@, "toggle"@), ("A/N"@, "all/none"@), ("Enter"@, "ok"@), ("Esc"@, "cancel"@)]
    } else {
        match tab {
            Tab::Profiles => seq![
                ("↑↓"@, "move"@),
                ("←→"@, "agent"@),
                ("Enter/s"@, "switch"@),
                ("/"@, "filter"@),
                (">"@, "palette"@),
                ("?"@, "help"@),
                ("q"@, "quit"@),
            ],
            Tab::Skills => seq![
                ("↑↓"@, "move"@),
                ("Space"@, "select"@),
                ("a"@, "agents"@),
                ("m"@, "cycle method"@),
                ("M"@, "pick method"@),
                ("s"@, "sync sel"@),
                ("S"@, "sync all"@),
                ("Enter"@, "sync row"@),
            ],
            Tab::Mcp => seq![
                ("↑↓"@, "move"@),
                ("Space"@, "select"@),
                ("a"@, "agents"@),
                ("S"@, "sync all"@),
                ("i"@, "import live"@),
                ("d"@, "delete"@),
            ],
            Tab::Rules => seq![
                ("↑↓"@, "move"@),
                ("Space"@, "select"@),
                ("a"@, "agents"@),
                ("S"@, "sync all"@),
                ("d"@, "delete"@),
            ],
            Tab::Plugins => seq![("↑↓"@, "move"@), ("n"@, "install"@), ("d"@, "delete (×2)"@)],
            Tab::Backup => seq![
                ("↑↓"@, "move"@),
                ("n"@, "snapshot"@),
                ("r"@, "restore"@),
                ("p"@, "push GH"@),
                ("d"@, "delete (×2)"@),
            ],
            Tab::Settings => seq![
                ("↑↓"@, "focus row"@),
                ("Space"@, "toggle"@),
                ("Enter"@, "edit"@),
                ("t"@, "theme"@),
                ("?"@, "help"@),
                ("q"@, "quit"@),
            ],
            Tab::Sessions => seq![
                ("Tab"@, "next tab"@),
                ("/"@, "filter"@),
                (">"@, "palette"@),
                ("?"@, "help"@),
                ("q"@, "quit"@),
            ],
        }
    }
}

/// Views of a list of hints.
pub open spec fn hints_view(v: Seq<(String, String)>) -> Seq<(Seq<char>, Seq<char>)> {
    v.map_values(|h: (String, String)| (h.0@, h.1@))
}

fn push_hint(v: &mut Vec<(String, String)>, key: &str, label: &str)
    ensures
        hints_view(final(v)@) == hints_view(old(v)@).push((key@, label@)),
{
    let h = hint(key, label);
    v.push(h);
    assert(hints_view(v@) =~= hints_view(old(v)@).push((key@, label@)));
}

/// The key hints for the current state of `app`.
pub fn hints(app: &App) -> (r: Vec<(String, String)>)
    ensures
        hints_view(r@) == hints_spec(app.active_tab, app.agent_popup is Some),
{
    let mut v: Vec<(String, String)> = Vec::new();
    let quit = key_label(KeyAction::Quit, false);
    if app.agent_popup.is_some() {
        push_hint(&mut v, "↑↓", "move");
        push_hint(&mut v, "Space", "toggle");
        push_hint(&mut v, "A/N", "all/none");
        push_hint(&mut v, "Enter", "ok");
        push_hint(&mut v, "Esc", "cancel");
    } else {
        match app.active_tab {
            Tab::Profiles => {
                push_hint(&mut v, "↑↓", "move");
                push_hint(&mut v, "←→", "agent");
                push_hint(&mut v, "Enter/s", "switch");
                push_hint(&mut v, "/", "filter");
                push_hint(&mut v, ">", "palette");
                push_hint(&mut v, "?", "help");
                push_hint(&mut v, quit.as_str(), "quit");
            },
            Tab::Skills => {
                push_hint(&mut v, "↑↓", "move");
                push_hint(&mut v, "Space", "select");
                push_hint(&mut v, "a", "agents");
                push_hint(&mut v, "m", "cycle method");
                push_hint(&mut v, "M", "pick method");
                push_hint(&mut v, "s", "sync sel");
                push_hint(&mut v, "S", "sync all");
                push_hint(&mut v, "Enter", "sync row");
            },
            Tab::Mcp => {
                push_hint(&mut v, "↑↓", "move");
                push_hint(&mut v, "Space", "select");
                push_hint(&mut v, "a", "agents");
                push_hint(&mut v, "S", "sync all");
                push_hint(&mut v, "i", "import live");
                push_hint(&mut v, "d", "delete");
            },
            Tab::Rules => {
                push_hint(&mut v, "↑↓", "move");
                push_hint(&mut v, "Space", "select");
                push_hint(&mut v, "a", "agents");
                push_hint(&mut v, "S", "sync all");
                push_hint(&mut v, "d", "delete");
            },
            Tab::Plugins => {
                push_hint(&mut v, "↑↓", "move");
                push_hint(&mut v, "n", "install");
                push_hint(&mut v, "d", "delete (×2)");
            },
            Tab::Backup => {
                push_hint(&mut v, "↑↓", "move");
                push_hint(&mut v, "n", "snapshot");
                push_hint(&mut v, "r", "restore");
                push_hint(&mut v, "p", "push GH");
                push_hint(&mut v, "d", "delete (×2)");
            },
            Tab::Settings => {
                push_hint(&mut v, "↑↓", "focus row");
                push_hint(&mut v, "Space", "toggle");
                push_hint(&mut v, "Enter", "edit");
                push_hint(&mut v, "t", "theme");
                push_hint(&mut v, "?", "help");
                push_hint(&mut v, quit.as_str(), "quit");
            },
            Tab::Sessions => {
                push_hint(&mut v, "Tab", "next tab");
                push_hint(&mut v, "/", "filter");
                push_hint(&mut v, ">", "palette");
                push_hint(&mut v, "?", "help");
                push_hint(&mut v, quit.as_str(), "quit");
            },
        }
    }
    assert(hints_view(v@) =~= hints_spec(app.active_tab, app.agent_popup is Some));
    v
}

/// A popup rectangle centred in `area`: `pct_w`% of its width and
/// `pct_h`% of its height, grown to at least `min_w` by `min_h` cells but
/// never larger than `area`.
pub open spec fn centered_rect_spec(pct_w: u16, pct_h: u16, min_w: u16, min_h: u16, area: Rect) -> Rect {
    let w = area.width * pct_w / 100;
    let h = area.height * pct_h / 100;
    let width = if w < min_w { min_w as int } else { w };
    let height = if h < min_h { min_h as int } else { h };
    Rect {
        x: (area.x + (area.width - w) / 2) as u16,
        y: (area.y + (area.height - h) / 2) as u16,
        width: (if width < area.width { width } else { area.width as int }) as u16,
        height: (if height < area.height { height } else { area.height as int }) as u16,
    }
}

fn percent_of(n: u16, pct: u16) -> (r: u16)
    requires
        pct <= 100,
    ensures
        r == n * pct / 100,
        r <= n,
{
    assert((n as u32) * (pct as u32) <= 65535 * 100) by (nonlinear_arith)
        requires
            pct <= 100,
            n <= 65535,
    ;
    let p = (n as u32) * (pct as u32);
    assert(p / 100 <= n) by (nonlinear_arith)
        requires
            p == n * pct,
            pct <= 100,
    ;
    (p / 100) as u16
}

/// Geometry of a centred popup inside `area`.
pub fn centered_rect(pct_w: u16, pct_h: u16, min_w: u16, min_h: u16, area: Rect) -> (r: Rect)
    requires
        pct_w <= 100,
        pct_h <= 100,
        area.x + area.width <= u16::MAX,
        area.y + area.height <= u16::MAX,
    ensures
        r == centered_rect_spec(pct_w, pct_h, min_w, min_h, area),
{
    let w = percent_of(area.width, pct_w);
    let h = percent_of(area.height, pct_h);
    let x = area.x + area.width.saturating_sub(w) / 2;
    let y = area.y + area.height.saturating_sub(h) / 2;
    let width = if w < min_w { min_w } else { w };
    let height = if h < min_h { min_h } else { h };
    Rect {
        x,
        y,
        width: if width < area.width { width } else { area.width },
        height: if height < area.height { height } else { area.height },
    }
}

/// The highlighted row of a list of `len` rows whose focus is `focus`:
/// the focus, held to the last row.
pub open spec fn list_cursor_spec(focus: usize, len: usize) -> usize {
    if len == 0 {
        0
    } else if focus < len {
        focus
    } else {
        (len - 1) as usize
    }
}

pub fn list_cursor(focus: usize, len: usize) -> (r: usize)
    ensures
        r == list_cursor_spec(focus, len),
{
    if len == 0 {
        0
    } else if focus < len {
        focus
    } else {
        len - 1
    }
}

/// The dots of the first `n` agents: `●` on, `○` off.
pub open spec fn agent_dots(flags: Seq<bool>, n: nat) -> Seq<char>
    decreases n,
{
    if n == 0 {
        Seq::empty()
    } else {
        agent_dots(flags, (n - 1) as nat).push(if flag_at(flags, n - 1) { '●' } else { '○' })
    }
}

/// The agents column of a row: `on/total ` then one dot per agent.
pub open spec fn agent_pill_spec(flags: Seq<bool>, n: nat) -> Seq<char> {
    decimal(count_on(flags, n)) + "/"@ + decimal(n) + " "@ + agent_dots(flags, n)
}

/// Agents column of a row with per-agent flags `flags`, for `n` agents.
pub fn agent_pill(flags: &Vec<bool>, n: usize) -> (r: String)
    requires
        n < u64::MAX,
    ensures
        r@ == agent_pill_spec(flags@, n as nat),
{
    let mut on: usize = 0;
    let mut dots = String::new();
    for i in 0..n
        invariant
            on == count_on(flags@, i as nat),
            on <= i,
            dots@ == agent_dots(flags@, i as nat),
    {
        let f = i < flags.len() && flags[i];
        if f {
            on = on + 1;
            push_char(&mut dots, '●');
        } else {
            push_char(&mut dots, '○');
        }
    }
    let a = fmt_u64(on as u64);
    let b = fmt_u64(n as u64);
    let mut r = cat3(a.as_str(), "/", b.as_str());
    r.append(" ");
    r.append(dots.as_str());
    r
}

/// Source column of a skill row.
pub fn skill_source_label(from_github: bool) -> (r: &'static str)
    ensures
        r@ == (if from_github { "github"@ } else { "local"@ }),
{
    if from_github {
        "github"
    } else {
        "local"
    }
}

/// Status column of a skill row: "in sync" once a non-empty content hash
/// is recorded, else "unknown".
pub fn skill_status_label(content_hash: &Option<String>) -> (r: &'static str)
    ensures
        r@ == (if content_hash matches Some(h) && h@.len() > 0 { "in sync"@ } else { "unknown"@ }),
{
    match content_hash {
        Some(h) => if h.as_str().is_empty() {
            "unknown"
        } else {
            "in sync"
        },
        None => "unknown",
    }
}

/// Selection box of a list row.
pub fn checkbox(selected: bool) -> (r: &'static str)
    ensures
        r@ == (if selected { "☑ "@ } else { "☐ "@ }),
{
    if selected {
        "☑ "
    } else {
        "☐ "
    }
}

/// What an emptied list shows when the filter matches nothing.
pub fn no_matches_text(filter: &str) -> (r: String)
    ensures
        r@ == "(no matches for \""@ + filter@ + "\" — Esc to clear)"@,
{
    cat3("(no matches for \"", filter, "\" — Esc to clear)")
}

/// Footer of the Skills tab.
pub open spec fn skills_summary_spec(selected: nat, shown: nat, total: nat, method: Seq<char>) -> Seq<char> {
    "  Selected: "@ + decimal(selected) + " · Showing "@ + decimal(shown) + " of "@ + decimal(total)
        + "    Method (focused): "@ + method
}

pub fn skills_summary(selected: usize, shown: usize, total: usize, method: &str) -> (r: String)
    ensures
        r@ == skills_summary_spec(selected as nat, shown as nat, total as nat, method@),
{
    let a = fmt_u64(selected as u64);
    let b = fmt_u64(shown as u64);
    let c = fmt_u64(total as u64);
    let mut r = cat3("  Selected: ", a.as_str(), " · Showing ");
    r.append(b.as_str());
    r.append(" of ");
    r.append(c.as_str());
    r.append("    Method (focused): ");
    r.append(method);
    r
}

/// Sum of the resources bundled by the plugins.
pub open spec fn bundled_total(ps: Seq<Plugin>) -> int
    decreases ps.len(),
{
    if ps.len() == 0 {
        0
    } else {
        bundled_total(ps.drop_last()) + ps.last().skills + ps.last().mcp_servers + ps.last().commands
            + ps.last().agents
    }
}

/// Footer of the Plugins tab: plugin count and bundled resources, summed
/// as 32-bit counts.
pub fn plugins_summary(ps: &Vec<Plugin>) -> (r: String)
    requires
        bundled_total(ps@) <= u32::MAX,
    ensures
        r@ == "  "@ + decimal(ps@.len()) + " plugin(s), "@ + decimal(bundled_total(ps@) as nat)
            + " bundled resource(s)"@,
{
    let mut total: u32 = 0;
    let mut i: usize = 0;
    while i < ps.len()
        invariant
            i <= ps@.len(),
            total == bundled_total(ps@.take(i as int)),
            bundled_total(ps@) <= u32::MAX,
        decreases ps@.len() - i,
    {
        proof {
            lemma_bundled_prefix(ps@, i as int + 1);
            assert(ps@.take(i + 1).drop_last() =~= ps@.take(i as int));
        }
        let p = &ps[i];
        total = total + p.skills + p.mcp_servers + p.commands + p.agents;
        i = i + 1;
    }
    assert(ps@.take(i as int) =~= ps@);
    let n = fmt_u64(ps.len() as u64);
    let t = fmt_u64(total as u64);
    let mut r = cat3("  ", n.as_str(), " plugin(s), ");
    r.append(t.as_str());
    r.append(" bundled resource(s)");
    r
}

/// A prefix bundles no more than the whole list.
proof fn lemma_bundled_prefix(ps: Seq<Plugin>, k: int)
    requires
        0 <= k <= ps.len(),
    ensures
        bundled_total(ps.take(k)) <= bundled_total(ps),
    decreases ps.len(),
{
    if k < ps.len() {
        assert(ps.drop_last().take(k) =~= ps.take(k));
        lemma_bundled_prefix(ps.drop_last(), k);
    } else {
        assert(ps.take(k) =~= ps);
    }
}

/// Size column of a snapshot row, in whole KiB.
pub fn snapshot_kb(size_bytes: u64) -> (r: u64)
    ensures
        r == size_bytes / 1024,
{
    size_bytes / 1024
}

/// GitHub backup state in the status bar.
pub fn gh_status(settings: &Settings) -> (r: String)
    ensures
        r@ == (if settings.github_backup.enabled {
            "GH: ●"@ + settings.github_backup.branch@
        } else {
            "GH: off"@
        }),
{
    if settings.github_backup.enabled {
        cat("GH: ●", settings.github_backup.branch.as_str())
    } else {
        String::from_str("GH: off")
    }
}

/// The running-jobs banner under the hints: the spinner and the newest
/// running job, with how many more are queued; nothing when idle.
pub open spec fn task_banner_spec(glyph: Seq<char>, name: Seq<char>, running: nat) -> Seq<char> {
    if running > 1 {
        " "@ + glyph + " "@ + name + " · "@ + decimal((running - 1) as nat) + " queued"@
    } else {
        " "@ + glyph + " "@ + name
    }
}

pub fn task_banner(glyph: &str, name: &str, running: usize) -> (r: String)
    ensures
        r@ == task_banner_spec(glyph@, name@, running as nat),
{
    let mut r = cat3(" ", glyph, " ");
    r.append(name);
    if running > 1 {
        let d = fmt_u64((running - 1) as u64);
        r.append(" · ");
        r.append(d.as_str());
        r.append(" queued");
    }
    r
}

/// The running-jobs part of the status bar: spinner, newest running job
/// cut to 40 columns, the queue, and the key that opens the log.
pub open spec fn status_jobs_spec(glyph: Seq<char>, name: Seq<char>, running: nat) -> Seq<char> {
    glyph + " "@ + truncated(name, 40) + (if running > 1 {
        " · +"@ + decimal((running - 1) as nat) + " queued"@
    } else {
        Seq::empty()
    }) + "  (L)"@
}

pub fn status_jobs(glyph: &str, name: &str, running: usize) -> (r: String)
    ensures
        r@ == status_jobs_spec(glyph@, name@, running as nat),
{
    let t = truncate(name, 40);
    let mut r = cat3(glyph, " ", t.as_str());
    if running > 1 {
        let d = fmt_u64((running - 1) as u64);
        r.append(" · +");
        r.append(d.as_str());
        r.append(" queued");
    }
    r.append("  (L)");
    r
}

/// Title of the activity overlay.
pub fn activity_title(running: usize) -> (r: String)
    ensures
        r@ == (if running > 0 { " Activity ("@ + decimal(running as nat) + " running) "@ } else { " Activity "@ }),
{
    if running > 0 {
        let d = fmt_u64(running as u64);
        cat3(" Activity (", d.as_str(), " running) ")
    } else {
        String::from_str(" Activity ")
    }
}

/// Status column of a job in the activity overlay.
pub open spec fn task_status_text_spec(status: TaskStatus) -> Seq<char> {
    match status {
        TaskStatus::Running => "running"@,
        TaskStatus::Done(m) => if m@.len() == 0 { "ok"@ } else { "ok — "@ + m@ },
        TaskStatus::Failed(e) => "failed — "@ + e@,
    }
}

pub fn task_status_text(status: &TaskStatus) -> (r: String)
    ensures
        r@ == task_status_text_spec(*status),
{
    match status {
        TaskStatus::Running => String::from_str("running"),
        TaskStatus::Done(m) => if m.as_str().is_empty() {
            String::from_str("ok")
        } else {
            cat("ok — ", m.as_str())
        },
        TaskStatus::Failed(e) => cat("failed — ", e.as_str()),
    }
}

/// Run time of a job in milliseconds: until it finished, or until `now`
/// while it runs; a clock that went backwards counts as zero.
pub fn task_duration_ms(started_at_ms: u64, finished_at_ms: Option<u64>, now_ms: u64) -> (r: u64)
    ensures
        r == ({
            let end = match finished_at_ms {
                Some(f) => f,
                None => now_ms,
            };
            if end >= started_at_ms { (end - started_at_ms) as u64 } else { 0 }
        }),
{
    let end = match finished_at_ms {
        Some(f) => f,
        None => now_ms,
    };
    if end >= started_at_ms {
        end - started_at_ms
    } else {
        0
    }
}

/// Title of the installer popup.
pub fn install_popup_title(mode: &InstallLogMode) -> (r: String)
    ensures
        r@ == match *mode {
            InstallLogMode::ConfirmPnpm { .. } => " Install pnpm? "@,
            InstallLogMode::Streaming { title } => " Installing — "@ + title@ + " "@,
        },
{
    match mode {
        InstallLogMode::ConfirmPnpm { .. } => String::from_str(" Install pnpm? "),
        InstallLogMode::Streaming { title } => cat3(" Installing — ", title.as_str(), " "),
    }
}

/// First line of the pnpm prompt.
pub fn confirm_pnpm_text(owner_repo: &str) -> (r: String)
    ensures
        r@ == "To install "@ + owner_repo@ + " via the official skills CLI we need pnpm."@,
{
    cat3("To install ", owner_repo, " via the official skills CLI we need pnpm.")
}

/// How an installer process stands.
#[derive(Debug)]
pub enum RunStatus {
    Running,
    Succeeded,
    Failed(String),
}

/// Status line above the installer's output.
pub open spec fn stream_status_spec(status: RunStatus, glyph: Seq<char>) -> Seq<char> {
    match status {
        RunStatus::Running => " "@ + glyph + " running…"@,
        RunStatus::Succeeded => " ✓ installed — press Enter to close"@,
        RunStatus::Failed(e) => " ✗ "@ + e@ + " — press Enter to close"@,
    }
}

pub fn stream_status_line(status: &RunStatus, tick: u8) -> (r: String)
    ensures
        r@ == stream_status_spec(*status, spinner_frames()[tick as int % 10]@),
{
    match status {
        RunStatus::Running => cat3(" ", spinner_glyph(tick), " running…"),
        RunStatus::Succeeded => String::from_str(" ✓ installed — press Enter to close"),
        RunStatus::Failed(e) => cat3(" ✗ ", e.as_str(), " — press Enter to close"),
    }
}

/// Status line of the Smithery search popup.
pub open spec fn mcp_search_status_spec(status: SearchStatus, results: nat, glyph: Seq<char>) -> Seq<char> {
    match status {
        SearchStatus::Idle => " Press Enter to search registry.smithery.ai"@,
        SearchStatus::Loading => " "@ + glyph + " searching Smithery…"@,
        SearchStatus::Error(e) => " ✗ "@ + e@,
        SearchStatus::Loaded => " "@ + decimal(results) + " result(s) — Tab to move to list, Enter to install"@,
    }
}

pub fn mcp_search_status(status: &SearchStatus, results: usize, tick: u8) -> (r: String)
    ensures
        r@ == mcp_search_status_spec(*status, results as nat, spinner_frames()[tick as int % 10]@),
{
    match status {
        SearchStatus::Idle => String::from_str(" Press Enter to search registry.smithery.ai"),
        SearchStatus::Loading => cat3(" ", spinner_glyph(tick), " searching Smithery…"),
        SearchStatus::Error(e) => cat(" ✗ ", e.as_str()),
        SearchStatus::Loaded => {
            let d = fmt_u64(results as u64);
            cat3(" ", d.as_str(), " result(s) — Tab to move to list, Enter to install")
        },
    }
}

/// Kind tag and usage column of a Smithery hit.
pub fn mcp_hit_columns(hit: &McpHit) -> (r: (&'static str, String))
    ensures
        r.0@ == (if hit.remote { "[remote]"@ } else { "[local ]"@ }),
        r.1@ == "· "@ + decimal(hit.use_count as nat) + " uses"@,
{
    let tag = if hit.remote { "[remote]" } else { "[local ]" };
    let d = fmt_u64(hit.use_count);
    (tag, cat3("· ", d.as_str(), " uses"))
}

/// The GitHub line of the Backup tab.
pub fn backup_gh_status(gh: &GithubBackup) -> (r: String)
    ensures
        r@ == (if !gh.enabled {
            "disabled"@
        } else if gh.repo_url@.len() == 0 {
            "enabled · repo URL empty"@
        } else {
            "→ "@ + gh.repo_url@ + " ("@ + gh.branch@ + ")"@
        }),
{
    if !gh.enabled {
        String::from_str("disabled")
    } else if gh.repo_url.as_str().is_empty() {
        String::from_str("enabled · repo URL empty")
    } else {
        let mut r = cat3("→ ", gh.repo_url.as_str(), " (");
        r.append(gh.branch.as_str());
        r.append(")");
        r
    }
}

/// One-line description of a sync method in the method picker.
pub fn method_blurb(m: SyncMethod) -> (r: &'static str)
    ensures
        r@ == match m {
            SyncMethod::Auto => "OS-picked (symlink on Unix, copy on Windows)"@,
            SyncMethod::Symlink => "fast, edits reflect everywhere"@,
            SyncMethod::Copy => "independent copies per agent"@,
            SyncMethod::Inherit => "use workspace default"@,
        },
{
    match m {
        SyncMethod::Auto => "OS-picked (symlink on Unix, copy on Windows)",
        SyncMethod::Symlink => "fast, edits reflect everywhere",
        SyncMethod::Copy => "independent copies per agent",
        SyncMethod::Inherit => "use workspace default",
    }
}

/// The value shown on a GitHub-backup row of the Settings tab.
pub open spec fn gh_row_value_spec(gh: GithubBackup, row: SettingsRow) -> Seq<char> {
    match row {
        SettingsRow::GhEnabled => if gh.enabled { "yes"@ } else { "no"@ },
        SettingsRow::GhRepoUrl => if gh.repo_url@.len() == 0 {
            "(not set — press Enter to edit)"@
        } else {
            gh.repo_url@
        },
        SettingsRow::GhBranch => gh.branch@,
        SettingsRow::GhAutoSync => if gh.auto_sync { "yes"@ } else { "no"@ },
    }
}

pub fn gh_row_value(gh: &GithubBackup, row: SettingsRow) -> (r: String)
    ensures
        r@ == gh_row_value_spec(*gh, row),
{
    match row {
        SettingsRow::GhEnabled => String::from_str(yes_no(gh.enabled)),
        SettingsRow::GhRepoUrl => if gh.repo_url.as_str().is_empty() {
            String::from_str("(not set — press Enter to edit)")
        } else {
            gh.repo_url.clone()
        },
        SettingsRow::GhBranch => gh.branch.clone(),
        SettingsRow::GhAutoSync => String::from_str(yes_no(gh.auto_sync)),
    }
}

/// How a GitHub-backup row is drawn: whether it carries the focus arrow,
/// and whether it shows the edit buffer (focused text row being edited).
pub fn gh_row_state(view: &SettingsView, row: SettingsRow) -> (r: (bool, bool))
    ensures
        r.0 == (view.focused_row == Some(row)),
        r.1 == (view.focused_row == Some(row) && view.input_buf is Some && row.is_text_spec()),
{
    let focused = match view.focused_row {
        Some(f) => f == row,
        None => false,
    };
    let editing = focused && view.input_buf.is_some() && row.is_text();
    (focused, editing)
}

/// Text of a search popup's query box: the query, or a prompt while empty.
pub fn query_display(query: &str) -> (r: (String, bool))
    ensures
        r.1 == (query@.len() == 0),
        r.0@ == (if query@.len() == 0 { "type a query…"@ } else { query@ }),
{
    if query.is_empty() {
        (String::from_str("type a query…"), true)
    } else {
        (String::from_str(query), false)
    }
}

} // verus!

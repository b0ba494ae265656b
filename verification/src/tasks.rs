//! Bookkeeping for background jobs: the activity log (newest first, at most
//! fifty entries), and what a finished job means for the user (a toast and
//! the views to refresh). The worker thread itself belongs to the host.

use vstd::prelude::*;
use crate::text::{cat3, same_text};

verus! {

/// Where a background job stands.
#[derive(Debug)]
pub enum TaskStatus {
    Running,
    Done(String),
    Failed(String),
}

impl TaskStatus {
    /// A copy of the status.
    pub fn duplicate(&self) -> (r: TaskStatus)
        ensures
            r == *self,
    {
        match self {
            TaskStatus::Running => TaskStatus::Running,
            TaskStatus::Done(s) => TaskStatus::Done(s.clone()),
            TaskStatus::Failed(s) => TaskStatus::Failed(s.clone()),
        }
    }
}

/// One line of the activity log. Times are milliseconds on the host's clock.
#[derive(Debug)]
pub struct TaskLogEntry {
    pub id: u64,
    pub name: String,
    pub started_at_ms: u64,
    pub finished_at_ms: Option<u64>,
    pub status: TaskStatus,
}

impl TaskLogEntry {
    /// A copy of the entry.
    pub fn duplicate(&self) -> (r: TaskLogEntry)
        ensures
            r == *self,
    {
        TaskLogEntry {
            id: self.id,
            name: self.name.clone(),
            started_at_ms: self.started_at_ms,
            finished_at_ms: self.finished_at_ms,
            status: self.status.duplicate(),
        }
    }
}

/// A finished job as the worker hands it back.
#[derive(Debug)]
pub struct TaskResult {
    pub id: u64,
    pub status: TaskStatus,
}

/// The status of a job whose work returned `outcome`; `None` when the work
/// panicked.
pub fn job_status(outcome: Option<Result<String, String>>) -> (r: TaskStatus)
    ensures
        match outcome {
            Some(Ok(m)) => r == TaskStatus::Done(m),
            Some(Err(e)) => r == TaskStatus::Failed(e),
            None => r matches TaskStatus::Failed(e) && e@ == "task panicked"@,
        },
{
    match outcome {
        Some(Ok(m)) => TaskStatus::Done(m),
        Some(Err(e)) => TaskStatus::Failed(e),
        None => TaskStatus::Failed(String::from_str("task panicked")),
    }
}

/// Most entries the log keeps.
pub open spec fn log_cap() -> nat {
    50
}

/// Number of running entries in `s`.
pub open spec fn running_in(s: Seq<TaskLogEntry>) -> nat
    decreases s.len(),
{
    if s.len() == 0 {
        0
    } else {
        running_in(s.drop_last()) + if s.last().status is Running { 1nat } else { 0nat }
    }
}

/// The log after a completion message for job `id`: the entry with that id
/// (if still kept) takes the status and finishing time.
pub open spec fn completed_log(
    s: Seq<TaskLogEntry>,
    id: u64,
    status: TaskStatus,
    now: u64,
) -> Seq<TaskLogEntry> {
    Seq::new(
        s.len(),
        |k: int|
            if s[k].id == id && (forall|j: int| 0 <= j < k ==> s[j].id != id) {
                TaskLogEntry { status: status, finished_at_ms: Some(now), ..s[k] }
            } else {
                s[k]
            },
    )
}

/// `after` is the log `before` once a job named `name` has started at
/// `now`: the new running entry, with id `before.next_id`, comes first,
/// then the old entries in their order, at most `log_cap()` in all; the
/// next id moves on by one.
pub open spec fn job_started(before: TaskLog, after: TaskLog, name: Seq<char>, now: u64) -> bool {
    &&& after.next_id == before.next_id + 1
    &&& after.entries@.len() == (if before.entries@.len() + 1 > log_cap() {
        log_cap()
    } else {
        before.entries@.len() + 1
    })
    &&& after.entries@[0].id == before.next_id
    &&& after.entries@[0].name@ == name
    &&& after.entries@[0].started_at_ms == now
    &&& after.entries@[0].finished_at_ms is None
    &&& after.entries@[0].status is Running
    &&& forall|k: int| 1 <= k < after.entries@.len() ==> #[trigger] after.entries@[k] == before.entries@[k - 1]
}

/// The activity log of background jobs.
pub struct TaskLog {
    /// Id the next job receives.
    pub next_id: u64,
    /// Entries, newest first.
    pub entries: Vec<TaskLogEntry>,
}

impl TaskLog {
    /// An empty log whose first job gets id 1.
    pub fn new() -> (r: TaskLog)
        ensures
            r.next_id == 1,
            r.entries@.len() == 0,
    {
        TaskLog { next_id: 1, entries: Vec::new() }
    }

    /// Records a new running job named `name` started at `now` and returns
    /// its id. The entry goes in front; the oldest entries beyond fifty are
    /// dropped.
    pub fn begin(&mut self, name: String, now: u64) -> (id: u64)
        requires
            old(self).next_id < u64::MAX,
        ensures
            id == old(self).next_id,
            final(self).next_id == old(self).next_id + 1,
            final(self).entries@ == (seq![
                TaskLogEntry {
                    id: id,
                    name: name,
                    started_at_ms: now,
                    finished_at_ms: None,
                    status: TaskStatus::Running,
                },
            ] + old(self).entries@).take(
                if old(self).entries@.len() + 1 > log_cap() {
                    log_cap() as int
                } else {
                    (old(self).entries@.len() + 1) as int
                },
            ),
            job_started(*old(self), *final(self), name@, now),
    {
        let ghost name_view = name@;
        let id = self.next_id;
        self.next_id = self.next_id + 1;
        let entry = TaskLogEntry {
            id,
            name,
            started_at_ms: now,
            finished_at_ms: None,
            status: TaskStatus::Running,
        };
        let ghost full = seq![entry] + self.entries@;
        self.entries.insert(0, entry);
        assert(self.entries@ =~= full);
        while self.entries.len() > 50
            invariant
                self.next_id == old(self).next_id + 1,
                self.entries@ == full.take(self.entries@.len() as int),
                self.entries@.len() <= full.len(),
                self.entries@.len() < full.len() ==> self.entries@.len() >= 50,
            decreases self.entries@.len(),
        {
            self.entries.pop();
            assert(self.entries@ =~= full.take(self.entries@.len() as int));
        }
        assert(self.entries@ =~= full.take(
            if full.len() > log_cap() { log_cap() as int } else { full.len() as int },
        ));
        assert(self.entries@[0].name@ == name_view);
        assert forall|k: int| 1 <= k < self.entries@.len() implies #[trigger] self.entries@[k] == old(
            self,
        ).entries@[k - 1] by {
            assert(self.entries@[k] == full[k]);
        }
        id
    }

    /// Applies a completion message: the entry with `id` takes `status` and
    /// finishing time `now`; a copy of it is returned, or `None` when no kept
    /// entry has that id.
    pub fn complete(&mut self, id: u64, status: TaskStatus, now: u64) -> (r: Option<TaskLogEntry>)
        ensures
            final(self).next_id == old(self).next_id,
            final(self).entries@ == completed_log(old(self).entries@, id, status, now),
            (exists|k: int| 0 <= k < old(self).entries@.len() && old(self).entries@[k].id == id)
                <==> r is Some,
            r matches Some(e) ==> exists|k: int|
                0 <= k < old(self).entries@.len() && old(self).entries@[k].id == id && (forall|j: int|
                    0 <= j < k ==> old(self).entries@[j].id != id) && e == (TaskLogEntry {
                    status: status,
                    finished_at_ms: Some(now),
                    ..old(self).entries@[k]
                }) && #[trigger] final(self).entries@[k] == e,
    {
        let n = self.entries.len();
        let mut k: usize = 0;
        while k < n
            invariant
                n == self.entries@.len(),
                self.entries@ == old(self).entries@,
                self.next_id == old(self).next_id,
                forall|j: int| 0 <= j < k ==> self.entries@[j].id != id,
            decreases n - k,
        {
            if self.entries[k].id == id {
                let old_e = self.entries.remove(k);
                let e = TaskLogEntry {
                    id: old_e.id,
                    name: old_e.name,
                    started_at_ms: old_e.started_at_ms,
                    finished_at_ms: Some(now),
                    status,
                };
                let copy = e.duplicate();
                self.entries.insert(k, e);
                assert(self.entries@ =~= completed_log(old(self).entries@, id, copy.status, now));
                assert(self.entries@[k as int] == copy);
                return Some(copy);
            }
            k = k + 1;
        }
        assert(self.entries@ =~= completed_log(old(self).entries@, id, status, now));
        None
    }

    /// Number of jobs still running.
    pub fn running_count(&self) -> (r: usize)
        ensures
            r == running_in(self.entries@),
    {
        let mut c: usize = 0;
        let n = self.entries.len();
        for k in 0..n
            invariant
                n == self.entries@.len(),
                c == running_in(self.entries@.take(k as int)),
                c <= k,
        {
            assert(self.entries@.take(k + 1).drop_last() =~= self.entries@.take(k as int));
            if let TaskStatus::Running = self.entries[k].status {
                c = c + 1;
            }
        }
        assert(self.entries@.take(n as int) =~= self.entries@);
        c
    }

    /// Copies of the running entries, newest first.
    pub fn running_entries(&self) -> (r: Vec<TaskLogEntry>)
        ensures
            r@ == self.entries@.filter(|e: TaskLogEntry| e.status is Running),
    {
        let mut out: Vec<TaskLogEntry> = Vec::new();
        let n = self.entries.len();
        for k in 0..n
            invariant
                n == self.entries@.len(),
                out@ == self.entries@.take(k as int).filter(|e: TaskLogEntry| e.status is Running),
        {
            proof {
                reveal(Seq::filter);
                assert(self.entries@.take(k + 1).drop_last() =~= self.entries@.take(k as int));
            }
            if let TaskStatus::Running = self.entries[k].status {
                out.push(self.entries[k].duplicate());
            }
        }
        assert(self.entries@.take(n as int) =~= self.entries@);
        out
    }
}

/// Severity of a toast.
#[derive(Debug, Clone, Copy, PartialEq, Eq, Structural)]
pub enum ToastLevel {
    Info,
    Success,
    Warning,
    Error,
}

/// Names of the jobs whose empty success stays silent.
pub open spec fn quiet_job(name: Seq<char>) -> bool {
    name == "Rescan live skills"@ || name == "Recompute skill hashes"@
}

/// The toast a finished job raises, if any.
pub open spec fn task_toast_spec(name: Seq<char>, status: TaskStatus) -> Option<(ToastLevel, Seq<char>)> {
    match status {
        TaskStatus::Done(s) => if quiet_job(name) && s@.len() == 0 {
            None
        } else if s@.len() == 0 {
            Some((ToastLevel::Success, name))
        } else {
            Some((ToastLevel::Success, name + ": "@ + s@))
        },
        TaskStatus::Failed(e) => Some((ToastLevel::Error, name + " failed: "@ + e@)),
        TaskStatus::Running => None,
    }
}

/// The toast for a finished job: success with the job name (and its
/// message), error with the failure text; silent for the startup rescan and
/// hash recomputation when they found nothing, and for running jobs.
pub fn toast_for_task(entry: &TaskLogEntry) -> (r: Option<(ToastLevel, String)>)
    ensures
        match task_toast_spec(entry.name@, entry.status) {
            Some((l, m)) => r matches Some(p) && p.0 == l && p.1@ == m,
            None => r is None,
        },
{
    match &entry.status {
        TaskStatus::Done(s) => {
            let quiet = same_text(entry.name.as_str(), "Rescan live skills") || same_text(
                entry.name.as_str(),
                "Recompute skill hashes",
            );
            let empty = s.as_str().is_empty();
            if quiet && empty {
                None
            } else if empty {
                Some((ToastLevel::Success, entry.name.clone()))
            } else {
                Some((ToastLevel::Success, cat3(entry.name.as_str(), ": ", s.as_str())))
            }
        },
        TaskStatus::Failed(e) => Some((ToastLevel::Error, cat3(entry.name.as_str(), " failed: ", e.as_str()))),
        TaskStatus::Running => None,
    }
}

/// Which views the host re-reads from the store.
#[derive(Debug, Clone, Copy, PartialEq, Eq, Structural)]
pub struct Reloads {
    pub profiles: bool,
    pub skills: bool,
    pub mcp: bool,
    pub rules: bool,
    pub plugins: bool,
    pub backups: bool,
}

impl Reloads {
    pub open spec fn nothing_spec() -> Reloads {
        Reloads { profiles: false, skills: false, mcp: false, rules: false, plugins: false, backups: false }
    }

    /// No view to refresh.
    pub fn nothing() -> (r: Reloads)
        ensures
            r == Reloads::nothing_spec(),
    {
        Reloads { profiles: false, skills: false, mcp: false, rules: false, plugins: false, backups: false }
    }
}

/// Views a finished job affects, by the job's name.
pub open spec fn task_reloads_spec(name: Seq<char>) -> Reloads {
    let n = Reloads::nothing_spec();
    if name == "Sync all skills"@ || name == "Rescan live skills"@ || name
        == "Recompute skill hashes"@ {
        Reloads { skills: true, ..n }
    } else if name == "Sync all MCP"@ {
        Reloads { mcp: true, ..n }
    } else if name == "Sync all rules"@ {
        Reloads { rules: true, ..n }
    } else if name == "Push backup"@ {
        Reloads { backups: true, ..n }
    } else {
        n
    }
}

/// Which view a finished job makes stale; the job's name is the key.
pub fn reloads_for_task(name: &str) -> (r: Reloads)
    ensures
        r == task_reloads_spec(name@),
{
    let n = Reloads::nothing();
    if same_text(name, "Sync all skills") || same_text(name, "Rescan live skills") || same_text(
        name,
        "Recompute skill hashes",
    ) {
        Reloads { skills: true, ..n }
    } else if same_text(name, "Sync all MCP") {
        Reloads { mcp: true, ..n }
    } else if same_text(name, "Sync all rules") {
        Reloads { rules: true, ..n }
    } else if same_text(name, "Push backup") {
        Reloads { backups: true, ..n }
    } else {
        n
    }
}

} // verus!

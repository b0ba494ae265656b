//! Plain-value records of what the configuration store holds, as the front
//! end sees them. Per-agent flags are indexed by the agent's position in the
//! host's agent list.

use vstd::prelude::*;

verus! {

/// How a skill is materialized into an agent's directory.
#[derive(Debug, Clone, Copy, PartialEq, Eq, Structural)]
pub enum SyncMethod {
    Auto,
    Symlink,
    Copy,
    Inherit,
}

/// `flags[i]`, or `false` past the end.
pub open spec fn flag_at(flags: Seq<bool>, i: int) -> bool {
    0 <= i < flags.len() && flags[i]
}

/// Number of `true` entries among the first `n` flags.
pub open spec fn count_on(flags: Seq<bool>, n: nat) -> nat
    decreases n,
{
    if n == 0 {
        0
    } else {
        count_on(flags, (n - 1) as nat) + if flag_at(flags, n - 1) { 1nat } else { 0nat }
    }
}

impl SyncMethod {
    pub open spec fn label(self) -> Seq<char> {
        match self {
            SyncMethod::Auto => seq!['a', 'u', 't', 'o'],
            SyncMethod::Symlink => seq!['s', 'y', 'm', 'l', 'i', 'n', 'k'],
            SyncMethod::Copy => seq!['c', 'o', 'p', 'y'],
            SyncMethod::Inherit => seq!['i', 'n', 'h', 'e', 'r', 'i', 't'],
        }
    }

    /// Lower-case name of the method.
    pub fn as_str(self) -> (r: String)
        ensures
            r@ == self.label(),
    {
        let mut s = String::new();
        let lit = match self {
            SyncMethod::Auto => "auto",
            SyncMethod::Symlink => "symlink",
            SyncMethod::Copy => "copy",
            SyncMethod::Inherit => "inherit",
        };
        proof {
            reveal_strlit("auto");
            reveal_strlit("symlink");
            reveal_strlit("copy");
            reveal_strlit("inherit");
        }
        s.append(lit);
        s
    }

    /// Position of the method in the picker order auto, symlink, copy, inherit.
    pub open spec fn rank(self) -> usize {
        match self {
            SyncMethod::Auto => 0,
            SyncMethod::Symlink => 1,
            SyncMethod::Copy => 2,
            SyncMethod::Inherit => 3,
        }
    }

    pub open spec fn next_spec(self) -> SyncMethod {
        match self {
            SyncMethod::Auto => SyncMethod::Symlink,
            SyncMethod::Symlink => SyncMethod::Copy,
            SyncMethod::Copy => SyncMethod::Inherit,
            SyncMethod::Inherit => SyncMethod::Auto,
        }
    }

    /// Four steps of the cycle come back to the starting method.
    pub proof fn lemma_cycle_returns(self)
        ensures
            self.next_spec().next_spec().next_spec().next_spec() == self,
            self.next_spec() != self,
    {
    }

    /// The method after this one in picker order, wrapping around.
    pub fn cycle(self) -> (r: SyncMethod)
        ensures
            r == self.next_spec(),
            r.rank() == (self.rank() + 1) % 4,
    {
        match self {
            SyncMethod::Auto => SyncMethod::Symlink,
            SyncMethod::Symlink => SyncMethod::Copy,
            SyncMethod::Copy => SyncMethod::Inherit,
            SyncMethod::Inherit => SyncMethod::Auto,
        }
    }
}

/// The method at position `i` of the picker order.
pub open spec fn method_at(i: int) -> SyncMethod {
    if i == 0 {
        SyncMethod::Auto
    } else if i == 1 {
        SyncMethod::Symlink
    } else if i == 2 {
        SyncMethod::Copy
    } else {
        SyncMethod::Inherit
    }
}

/// The picker order of sync methods: auto, symlink, copy, inherit.
pub fn method_popup_choices() -> (r: Vec<SyncMethod>)
    ensures
        r@.len() == 4,
        forall|i: int| 0 <= i < 4 ==> #[trigger] r@[i] == method_at(i),
        forall|i: int| 0 <= i < 4 ==> (#[trigger] r@[i]).rank() == i,
{
    let mut v: Vec<SyncMethod> = Vec::new();
    v.push(SyncMethod::Auto);
    v.push(SyncMethod::Symlink);
    v.push(SyncMethod::Copy);
    v.push(SyncMethod::Inherit);
    v
}

/// One coding agent the host manages (Codex, Gemini CLI, ...).
#[derive(Debug, Clone)]
pub struct AgentInfo {
    /// Short stable id.
    pub id: String,
    /// Name shown to the user.
    pub display_name: String,
    /// Whether the agent has switchable profiles.
    pub supports_profiles: bool,
}

/// An installed skill.
#[derive(Debug, Clone)]
pub struct Skill {
    pub id: String,
    pub name: String,
    pub description: Option<String>,
    pub sync_method: SyncMethod,
    /// Per-agent enablement, by agent index.
    pub enabled: Vec<bool>,
    /// Installed from a GitHub repository (otherwise from a local path).
    pub from_github: bool,
    /// Content hash recorded at the last sync, if any.
    pub content_hash: Option<String>,
}

/// An MCP server row; `command` is the `command` string of its config,
/// empty when the config has none.
#[derive(Debug, Clone)]
pub struct McpServer {
    pub id: String,
    pub name: String,
    pub command: String,
    pub enabled: Vec<bool>,
}

/// A rule: a markdown body written into each enabled agent's rule file.
#[derive(Debug, Clone)]
pub struct Rule {
    pub id: String,
    pub name: String,
    pub body: String,
    pub enabled: Vec<bool>,
}

/// One stored profile of an agent.
#[derive(Debug, Clone)]
pub struct Profile {
    pub id: String,
    pub name: String,
    pub notes: Option<String>,
}

/// An installed plugin bundle with the number of resources it brought.
#[derive(Debug, Clone)]
pub struct Plugin {
    pub id: String,
    pub name: String,
    pub skills: u32,
    pub mcp_servers: u32,
    pub commands: u32,
    pub agents: u32,
}

/// A local backup snapshot.
#[derive(Debug, Clone)]
pub struct Snapshot {
    pub timestamp: String,
    pub size_bytes: u64,
    pub directory: String,
}

/// A curated skill repository.
#[derive(Debug, Clone)]
pub struct SkillRepoPreset {
    /// `owner/repo` argument for the repository registration.
    pub add_arg: String,
    pub branch: String,
    pub display_name: String,
    pub description: String,
}

/// A curated MCP server with its command already resolved for this platform.
#[derive(Debug, Clone)]
pub struct McpPreset {
    pub id: String,
    pub name: String,
    pub category: String,
    pub command: String,
    pub args: Vec<String>,
    pub homepage: String,
    pub description: String,
}

/// A skill found by the skills.sh search.
#[derive(Debug, Clone)]
pub struct SkillHit {
    pub name: String,
    /// `owner/repo` argument for the repository registration.
    pub add_arg: String,
    pub repo_branch: String,
}

/// An MCP server found by the Smithery search.
#[derive(Debug, Clone)]
pub struct McpHit {
    pub qualified_name: String,
    pub display_name: String,
    pub remote: bool,
    pub use_count: u64,
}

} // verus!

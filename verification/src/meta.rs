//! Local discovery data: the ordered command tree and the schema command names.

use vstd::prelude::*;

use crate::config::{APP_NAME, APP_VERSION, MSRV, SCHEMA_VERSION};
use crate::error::app_error::AppError;
use crate::error::detail::ErrorDetail;
use crate::text::{chars_of, eq_str, string_of};

verus! {

/// Agent notes embedded in the command tree.
#[derive(Debug)]
pub struct AgentNotes {
    /// What stdout carries.
    pub stdout: &'static str,
    /// What stderr carries.
    pub stderr: &'static str,
    /// When JSON is selected automatically.
    pub json_auto: &'static str,
    /// Process lifecycle.
    pub lifecycle: &'static str,
}

/// One nested subcommand entry.
#[derive(Debug)]
pub struct SubCommandNode {
    /// Subcommand name.
    pub name: &'static str,
    /// One-line description.
    pub about: &'static str,
}

/// One top-level command entry in the discovery tree.
#[derive(Debug)]
pub struct CommandNode {
    /// Command name.
    pub name: &'static str,
    /// One-line description.
    pub about: &'static str,
    /// Positional arguments and flags, in order.
    pub args: Vec<&'static str>,
    /// Nested subcommands, in order.
    pub subcommands: Vec<SubCommandNode>,
}

/// Stable, ordered command tree for agents.
#[derive(Debug)]
pub struct CommandTree {
    /// Product name.
    pub name: &'static str,
    /// Product version.
    pub version: &'static str,
    /// Minimum supported Rust version.
    pub msrv: &'static str,
    /// Envelope schema version.
    pub schema_version: u32,
    /// Notes on the agent contract.
    pub agent_notes: AgentNotes,
    /// Commands, in order.
    pub commands: Vec<CommandNode>,
}

/// Names of the top-level commands, in order.
pub open spec fn command_names() -> Seq<Seq<char>> {
    seq![
        "search-crates"@,
        "readme"@,
        "get-item"@,
        "search-in-crate"@,
        "version"@,
        "doctor"@,
        "commands"@,
        "schema"@,
        "completions"@,
        "cache"@,
        "config"@,
    ]
}

/// Arguments of each top-level command, in command order.
pub open spec fn command_args() -> Seq<Seq<Seq<char>>> {
    seq![
        seq!["query"@, "--per-page"@, "--sort"@, "--page"@, "--page-token"@],
        seq!["crate_name"@, "--crate-version"@],
        seq!["crate_name"@, "item_type"@, "item_path"@, "--crate-version"@, "--suggest"@],
        seq![
            "crate_name"@,
            "query"@,
            "--crate-version"@,
            "--item-type"@,
            "--limit"@,
            "--match"@,
        ],
        Seq::empty(),
        seq!["--online"@],
        Seq::empty(),
        seq!["--cmd"@],
        seq!["shell"@],
        Seq::empty(),
        Seq::empty(),
    ]
}

/// Subcommands of each top-level command, in command order.
pub open spec fn command_subcommands() -> Seq<Seq<Seq<char>>> {
    seq![
        Seq::empty(),
        Seq::empty(),
        Seq::empty(),
        Seq::empty(),
        Seq::empty(),
        Seq::empty(),
        Seq::empty(),
        Seq::empty(),
        Seq::empty(),
        seq!["path"@, "clear"@, "stats"@],
        seq!["path"@, "show"@, "init"@],
    ]
}

/// One-line description of each top-level command, in command order.
pub open spec fn command_abouts() -> Seq<Seq<char>> {
    seq![
        "Search crates on crates.io"@,
        "Fetch crate overview docblock from docs.rs (not git README)"@,
        "Fetch documentation for a typed item"@,
        "Search symbols in crate all.html index"@,
        "Print binary version"@,
        "Validate local TLS/config readiness"@,
        "List the full command tree for agent discovery"@,
        "Emit JSON Schema for a command envelope; pass --cmd all for the full bundle"@,
        "Generate shell completions"@,
        "Inspect or clear the XDG HTTP disk cache"@,
        "Manage XDG config paths and optional config.toml (no secrets / no .env)"@,
    ]
}

/// One-line description of each subcommand, in command order.
pub open spec fn subcommand_abouts() -> Seq<Seq<Seq<char>>> {
    seq![
        Seq::empty(),
        Seq::empty(),
        Seq::empty(),
        Seq::empty(),
        Seq::empty(),
        Seq::empty(),
        Seq::empty(),
        Seq::empty(),
        Seq::empty(),
        seq![
            "Print resolved cache root and which layer won"@,
            "Delete all cached HTTP bodies under the cache dir"@,
            "Report entry count, total bytes, and budget"@,
        ],
        seq![
            "Print resolved config/cache directories and which layer won"@,
            "Print effective runtime configuration"@,
            "Create default config.toml under the resolved config directory"@,
        ],
    ]
}

/// The agent notes the tree carries.
pub open spec fn notes_text(n: AgentNotes) -> bool {
    &&& n.stdout@ == "data only (JSON envelope or markdown)"@
    &&& n.stderr@ == "diagnostics only"@
    &&& n.json_auto@
        == "JSON is selected automatically when stdout is not a TTY unless --format markdown|text"@
    &&& n.lifecycle@ == "BORN → EXECUTE → FINALIZE → DIE (one-shot, no daemon)"@
}

/// Views of a list of static strings.
pub open spec fn strs_view(v: Seq<&'static str>) -> Seq<Seq<char>> {
    v.map_values(|s: &'static str| s@)
}

/// The tree lists exactly the product's commands, descriptions, arguments and
/// subcommands, in order, with the agent notes.
pub open spec fn tree_shape(t: CommandTree) -> bool {
    &&& t.name@ == APP_NAME@
    &&& t.version@ == APP_VERSION@
    &&& t.msrv@ == MSRV@
    &&& t.schema_version == SCHEMA_VERSION
    &&& notes_text(t.agent_notes)
    &&& t.commands@.len() == command_names().len()
    &&& forall|i: int|
        0 <= i < t.commands@.len() ==> {
            &&& (#[trigger] t.commands@[i]).name@ == command_names()[i]
            &&& t.commands@[i].about@ == command_abouts()[i]
            &&& strs_view(t.commands@[i].args@) == command_args()[i]
            &&& t.commands@[i].subcommands@.map_values(|s: SubCommandNode| s.name@)
                == command_subcommands()[i]
            &&& t.commands@[i].subcommands@.map_values(|s: SubCommandNode| s.about@)
                == subcommand_abouts()[i]
        }
}

fn node(name: &'static str, about: &'static str, args: Vec<&'static str>) -> (r: CommandNode)
    ensures
        r.name == name,
        r.about == about,
        r.args@ == args@,
        r.subcommands@.len() == 0,
{
    CommandNode { name, about, args, subcommands: Vec::new() }
}

/// Stable, ordered command tree for agents (no map iteration).
pub fn command_tree_data() -> (r: CommandTree)
    ensures
        tree_shape(r),
{
    let mut commands: Vec<CommandNode> = Vec::new();
    commands.push(
        node(
            "search-crates",
            "Search crates on crates.io",
            vec!["query", "--per-page", "--sort", "--page", "--page-token"],
        ),
    );
    commands.push(
        node(
            "readme",
            "Fetch crate overview docblock from docs.rs (not git README)",
            vec!["crate_name", "--crate-version"],
        ),
    );
    commands.push(
        node(
            "get-item",
            "Fetch documentation for a typed item",
            vec!["crate_name", "item_type", "item_path", "--crate-version", "--suggest"],
        ),
    );
    commands.push(
        node(
            "search-in-crate",
            "Search symbols in crate all.html index",
            vec!["crate_name", "query", "--crate-version", "--item-type", "--limit", "--match"],
        ),
    );
    commands.push(node("version", "Print binary version", Vec::new()));
    commands.push(node("doctor", "Validate local TLS/config readiness", vec!["--online"]));
    commands.push(node("commands", "List the full command tree for agent discovery", Vec::new()));
    commands.push(
        node(
            "schema",
            "Emit JSON Schema for a command envelope; pass --cmd all for the full bundle",
            vec!["--cmd"],
        ),
    );
    commands.push(node("completions", "Generate shell completions", vec!["shell"]));
    commands.push(
        CommandNode {
            name: "cache",
            about: "Inspect or clear the XDG HTTP disk cache",
            args: Vec::new(),
            subcommands: vec![
                SubCommandNode {
                    name: "path",
                    about: "Print resolved cache root and which layer won",
                },
                SubCommandNode {
                    name: "clear",
                    about: "Delete all cached HTTP bodies under the cache dir",
                },
                SubCommandNode {
                    name: "stats",
                    about: "Report entry count, total bytes, and budget",
                },
            ],
        },
    );
    commands.push(
        CommandNode {
            name: "config",
            about: "Manage XDG config paths and optional config.toml (no secrets / no .env)",
            args: Vec::new(),
            subcommands: vec![
                SubCommandNode {
                    name: "path",
                    about: "Print resolved config/cache directories and which layer won",
                },
                SubCommandNode { name: "show", about: "Print effective runtime configuration" },
                SubCommandNode {
                    name: "init",
                    about: "Create default config.toml under the resolved config directory",
                },
            ],
        },
    );
    let tree = CommandTree {
        name: APP_NAME,
        version: APP_VERSION,
        msrv: MSRV,
        schema_version: SCHEMA_VERSION,
        agent_notes: AgentNotes {
            stdout: "data only (JSON envelope or markdown)",
            stderr: "diagnostics only",
            json_auto: "JSON is selected automatically when stdout is not a TTY unless --format markdown|text",
            lifecycle: "BORN → EXECUTE → FINALIZE → DIE (one-shot, no daemon)",
        },
        commands,
    };
    proof {
        assert forall|i: int| 0 <= i < tree.commands@.len() implies {
            &&& (#[trigger] tree.commands@[i]).name@ == command_names()[i]
            &&& tree.commands@[i].about@ == command_abouts()[i]
            &&& strs_view(tree.commands@[i].args@) == command_args()[i]
            &&& tree.commands@[i].subcommands@.map_values(|s: SubCommandNode| s.name@)
                == command_subcommands()[i]
            &&& tree.commands@[i].subcommands@.map_values(|s: SubCommandNode| s.about@)
                == subcommand_abouts()[i]
        } by {
            assert(strs_view(tree.commands@[i].args@) =~= command_args()[i]);
            assert(tree.commands@[i].subcommands@.map_values(|s: SubCommandNode| s.name@)
                =~= command_subcommands()[i]);
            assert(tree.commands@[i].subcommands@.map_values(|s: SubCommandNode| s.about@)
                =~= subcommand_abouts()[i]);
        }
    }
    tree
}

/// Canonical schema command names (single command and `--cmd all`), in order.
pub open spec fn schema_names() -> Seq<Seq<char>> {
    seq![
        "search-crates"@,
        "readme"@,
        "get-item"@,
        "search-in-crate"@,
        "version"@,
        "doctor"@,
        "commands"@,
        "schema"@,
        "completions"@,
        "error"@,
        "dry-run"@,
        "agent-surface"@,
        "cache"@,
        "cache-path"@,
        "cache-clear"@,
        "cache-stats"@,
        "config"@,
        "config-path"@,
        "config-show"@,
        "config-init"@,
    ]
}

/// Canonical schema command names (single command and `--cmd all`).
pub fn schema_command_names() -> (r: Vec<&'static str>)
    ensures
        strs_view(r@) == schema_names(),
{
    let r = vec![
        "search-crates",
        "readme",
        "get-item",
        "search-in-crate",
        "version",
        "doctor",
        "commands",
        "schema",
        "completions",
        "error",
        "dry-run",
        "agent-surface",
        "cache",
        "cache-path",
        "cache-clear",
        "cache-stats",
        "config",
        "config-path",
        "config-show",
        "config-init",
    ];
    proof {
        assert(strs_view(r@) =~= schema_names());
    }
    r
}

/// `e` rejects `cmd` as an unknown schema command.
pub open spec fn unknown_schema_error(e: AppError, cmd: Seq<char>) -> bool {
    &&& e.wf()
    &&& match e.detail_of() {
        ErrorDetail::UnknownSchemaCommand { value } => value@ == cmd,
        _ => false,
    }
}

/// Accept a known schema command name, or reject it as unknown.
pub fn check_schema_command(cmd: &str) -> (r: Result<(), AppError>)
    ensures
        schema_names().contains(cmd@) ==> r is Ok,
        !schema_names().contains(cmd@) ==> (r matches Err(e) && unknown_schema_error(e, cmd@)),
{
    let names = schema_command_names();
    let v = chars_of(cmd);
    let mut i: usize = 0;
    while i < names.len()
        invariant
            0 <= i <= names@.len(),
            strs_view(names@) == schema_names(),
            v@ == cmd@,
            forall|k: int| 0 <= k < i ==> schema_names()[k] != cmd@,
        decreases names@.len() - i,
    {
        if eq_str(v.as_slice(), names[i]) {
            proof {
                assert(schema_names()[i as int] == cmd@);
            }
            return Ok(());
        }
        proof {
            assert(strs_view(names@)[i as int] == names@[i as int]@);
        }
        i = i + 1;
    }
    proof {
        assert(!schema_names().contains(cmd@)) by {
            if schema_names().contains(cmd@) {
                let k = choose|k: int| 0 <= k < schema_names().len() && schema_names()[k] == cmd@;
                assert(schema_names()[k] != cmd@);
            }
        }
    }
    Err(AppError::of(ErrorDetail::UnknownSchemaCommand { value: string_of(v.as_slice()) }))
}

} // verus!

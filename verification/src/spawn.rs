//! The spawn plan: everything the host needs to launch the sidecar — the
//! fixed program name, the single script argument, the six-variable
//! environment, and the working directory. Pure data; the spawn itself is
//! process I/O the host performs.

use crate::paths::spec_join;
use crate::paths::join_path;
use vstd::prelude::*;
use vstd::string::*;

verus! {

/// A complete plan for spawning the child process.
pub struct SpawnPlan {
    /// Fixed logical name of the bundled companion executable; resolution by
    /// this name, never by a user-supplied path, is what prevents launching
    /// arbitrary binaries.
    pub program: String,
    /// Exactly one positional argument: the absolute path of the entry
    /// script inside the resource directory.
    pub args: Vec<String>,
    /// Exactly the six documented variables, nothing more, whatever the
    /// host's own environment holds.
    pub env: Vec<(String, String)>,
    /// The child's working directory: the resource directory, so the child
    /// resolves its own relative assets there.
    pub cwd: String,
}

/// `<resource_dir>/server.js`, the entry script handed to the child.
pub open spec fn spec_server_script(resource_dir: Seq<char>, sep: char) -> Seq<char> {
    spec_join(resource_dir, sep, "server.js"@)
}

/// The six environment variables handed to the child, in order, with their
/// documented literal values; only `DATABASE_URL` depends on an input.
pub open spec fn spec_child_env(database_url: Seq<char>) -> Seq<(Seq<char>, Seq<char>)> {
    seq![
        ("DATA_MODE"@, "local"@),
        ("DATABASE_URL"@, database_url),
        ("LOCAL_AUTH_DISABLED"@, "true"@),
        ("PORT"@, "3000"@),
        ("HOSTNAME"@, "127.0.0.1"@),
        ("NODE_ENV"@, "production"@),
    ]
}

/// Build the child's environment: exactly the six documented variables.
pub fn child_env(database_url: &str) -> (r: Vec<(String, String)>)
    ensures
        r.deep_view() == spec_child_env(database_url@),
{
    let mut r: Vec<(String, String)> = Vec::new();
    r.push((String::from_str("DATA_MODE"), String::from_str("local")));
    r.push((String::from_str("DATABASE_URL"), String::from_str(database_url)));
    r.push((String::from_str("LOCAL_AUTH_DISABLED"), String::from_str("true")));
    r.push((String::from_str("PORT"), String::from_str("3000")));
    r.push((String::from_str("HOSTNAME"), String::from_str("127.0.0.1")));
    r.push((String::from_str("NODE_ENV"), String::from_str("production")));
    proof {
        assert(r.deep_view() =~= spec_child_env(database_url@));
    }
    r
}

/// Build the complete spawn plan from the resolved resource directory and
/// the connection string.
pub fn plan_spawn(resource_dir: &str, sep: &str, database_url: &str) -> (r: SpawnPlan)
    requires
        sep@.len() == 1,
    ensures
        r.program@ == "node"@,
        r.args.deep_view() == seq![spec_server_script(resource_dir@, sep@[0])],
        r.env.deep_view() == spec_child_env(database_url@),
        r.cwd@ == resource_dir@,
{
    let script = join_path(resource_dir, sep, "server.js");
    let mut args: Vec<String> = Vec::new();
    args.push(script);
    proof {
        assert(args.deep_view() =~= seq![spec_server_script(resource_dir@, sep@[0])]);
    }
    SpawnPlan {
        program: String::from_str("node"),
        args,
        env: child_env(database_url),
        cwd: String::from_str(resource_dir),
    }
}

} // verus!

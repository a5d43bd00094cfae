//! The environment snapshot and the requirement resolver.
//!
//! The snapshot records, as plain data, everything the resolver may probe:
//! the executables found in each directory of the search path (in search
//! order), the filesystem paths known to exist, the environment variables
//! that are set, and capability flags for architecture and platform. The
//! resolver is a pure query over this data: probing twice with the same
//! input yields the same result.

use vstd::prelude::*;
use crate::strutil::concat_str;
use crate::strutil::str_eq;

verus! {

/// One executable visible in a search-path directory: its bare name and its
/// full path.
#[derive(Debug)]
pub struct ExeEntry {
    pub name: String,
    pub full_path: String,
}

/// One directory of the executable search path, with the executables it
/// holds.
#[derive(Debug)]
pub struct PathEntry {
    pub dir: String,
    pub entries: Vec<ExeEntry>,
}

/// One set environment variable.
#[derive(Debug)]
pub struct EnvVar {
    pub name: String,
    pub value: String,
}

/// The CPU architecture of the running process.
#[derive(Clone, Copy, Debug, PartialEq, Eq, Structural)]
pub enum Arch {
    X64,
    Aarch64,
    Other,
}

/// A read-only snapshot of everything the requirement resolver consults.
#[derive(Debug)]
pub struct Environment {
    /// Search-path directories in search order.
    pub path_entries: Vec<PathEntry>,
    /// Filesystem paths that exist.
    pub files: Vec<String>,
    /// Environment variables that are set.
    pub env_vars: Vec<EnvVar>,
    pub arch: Arch,
    /// The platform is macOS.
    pub macos: bool,
    /// The distribution is NixOS.
    pub nixos: bool,
}

/// A requirement probe result: the prerequisite was found (with its resolved
/// path or value), or it is missing, with a human-readable reason. A
/// `Missing` result is the sole legitimate source of a `Skip` step error.
#[derive(Debug)]
pub enum Probe {
    Found { path: String },
    Missing { reason: String },
}

/// First executable named `name` in one directory's entry list.
pub open spec fn resolve_in_entries(entries: Seq<ExeEntry>, name: Seq<char>) -> Option<
    Seq<char>,
>
    decreases entries.len(),
{
    if entries.len() == 0 {
        None
    } else if entries[0].name@ == name {
        Some(entries[0].full_path@)
    } else {
        resolve_in_entries(entries.skip(1), name)
    }
}

/// First match for `name` over the search-path directories, in order.
pub open spec fn resolve_path(dirs: Seq<PathEntry>, name: Seq<char>) -> Option<Seq<char>>
    decreases dirs.len(),
{
    if dirs.len() == 0 {
        None
    } else {
        match resolve_in_entries(dirs[0].entries@, name) {
            Some(p) => Some(p),
            None => resolve_path(dirs.skip(1), name),
        }
    }
}

/// Where `name` resolves on the snapshot's search path, if anywhere.
pub open spec fn resolved(env: Environment, name: Seq<char>) -> Option<Seq<char>> {
    resolve_path(env.path_entries@, name)
}

/// The path `p` exists in the snapshot.
pub open spec fn file_exists(env: Environment, p: Seq<char>) -> bool {
    exists|i: int| 0 <= i < env.files@.len() && env.files@[i]@ == p
}

/// Value of the first variable named `name`, if any is set.
pub open spec fn env_var_of(vars: Seq<EnvVar>, name: Seq<char>) -> Option<Seq<char>>
    decreases vars.len(),
{
    if vars.len() == 0 {
        None
    } else if vars[0].name@ == name {
        Some(vars[0].value@)
    } else {
        env_var_of(vars.skip(1), name)
    }
}

/// The reason attached to a missing binary probe.
pub open spec fn missing_reason(name: Seq<char>) -> Seq<char> {
    "\""@ + name + "\" not found"@
}

/// The reason attached to a missing path probe.
pub open spec fn path_missing_reason(p: Seq<char>) -> Seq<char> {
    "\""@ + p + "\" does not exist"@
}

/// An `Option<String>` holds exactly the characters of an optional sequence.
pub open spec fn matches_opt_str(v: Option<String>, s: Option<Seq<char>>) -> bool {
    match v {
        Some(x) => s matches Some(t) && x@ == t,
        None => s is None,
    }
}

/// Search the snapshot's executable search path for `name` and return the
/// first match, or `Missing` with the standard reason.
pub fn require(env: &Environment, name: &str) -> (r: Probe)
    ensures
        resolved(*env, name@) matches Some(p) ==> (r matches Probe::Found { path }
            && path@ == p),
        resolved(*env, name@) is None ==> (r matches Probe::Missing { reason }
            && reason@ == missing_reason(name@)),
{
    let n = env.path_entries.len();
    let mut i: usize = 0;
    proof {
        assert(env.path_entries@.skip(0) =~= env.path_entries@);
    }
    while i < n
        invariant
            n == env.path_entries@.len(),
            i <= n,
            resolve_path(env.path_entries@.skip(i as int), name@) == resolve_path(
                env.path_entries@,
                name@,
            ),
        decreases n - i,
    {
        let entry = &env.path_entries[i];
        let m = entry.entries.len();
        let mut j: usize = 0;
        proof {
            assert(entry.entries@.skip(0) =~= entry.entries@);
        }
        while j < m
            invariant
                n == env.path_entries@.len(),
                i < n,
                entry == env.path_entries@[i as int],
                resolve_path(env.path_entries@.skip(i as int), name@) == resolve_path(
                    env.path_entries@,
                    name@,
                ),
                m == entry.entries@.len(),
                j <= m,
                resolve_in_entries(entry.entries@.skip(j as int), name@)
                    == resolve_in_entries(entry.entries@, name@),
            decreases m - j,
        {
            if str_eq(entry.entries[j].name.as_str(), name) {
                proof {
                    assert(entry.entries@.skip(j as int)[0] == entry.entries@[j as int]);
                    assert(resolve_in_entries(entry.entries@, name@) == Some(
                        entry.entries@[j as int].full_path@,
                    ));
                    assert(env.path_entries@.skip(i as int)[0] == env.path_entries@[
                        i as int]);
                    assert(resolve_path(env.path_entries@.skip(i as int), name@)
                        == Some(entry.entries@[j as int].full_path@));
                    assert(resolve_path(env.path_entries@, name@) == Some(
                        entry.entries@[j as int].full_path@,
                    ));
                }
                return Probe::Found { path: entry.entries[j].full_path.clone() };
            }
            proof {
                assert(entry.entries@.skip(j as int).skip(1) =~= entry.entries@.skip(
                    j as int + 1,
                ));
            }
            j += 1;
        }
        proof {
            assert(resolve_in_entries(entry.entries@, name@) is None);
            assert(env.path_entries@.skip(i as int)[0] == env.path_entries@[i as int]);
            assert(env.path_entries@.skip(i as int).skip(1) =~= env.path_entries@.skip(
                i as int + 1,
            ));
        }
        i += 1;
    }
    let quoted = concat_str("\"", name);
    let reason = concat_str(quoted.as_str(), "\" not found");
    Probe::Missing { reason }
}

/// Probe a filesystem prerequisite: existence in the snapshot, nothing more.
pub fn require_path(env: &Environment, p: &str) -> (r: Probe)
    ensures
        file_exists(*env, p@) ==> (r matches Probe::Found { path } && path@ == p@),
        !file_exists(*env, p@) ==> (r matches Probe::Missing { reason } && reason@
            == path_missing_reason(p@)),
{
    let n = env.files.len();
    let mut i: usize = 0;
    while i < n
        invariant
            n == env.files@.len(),
            i <= n,
            forall|k: int| 0 <= k < i ==> env.files@[k]@ != p@,
        decreases n - i,
    {
        if str_eq(env.files[i].as_str(), p) {
            return Probe::Found { path: env.files[i].clone() };
        }
        i += 1;
    }
    let quoted = concat_str("\"", p);
    let reason = concat_str(quoted.as_str(), "\" does not exist");
    Probe::Missing { reason }
}

/// Convert an already-computed optional value into a probe result, attaching
/// `reason` verbatim when the value is absent.
pub fn require_option(opt: Option<String>, reason: String) -> (r: Probe)
    ensures
        opt matches Some(v) ==> (r matches Probe::Found { path } && path == v),
        opt is None ==> (r matches Probe::Missing { reason: why } && why == reason),
{
    match opt {
        Some(v) => Probe::Found { path: v },
        None => Probe::Missing { reason },
    }
}

/// Look up an environment variable in the snapshot.
pub fn env_var(env: &Environment, name: &str) -> (r: Option<String>)
    ensures
        matches_opt_str(r, env_var_of(env.env_vars@, name@)),
{
    let n = env.env_vars.len();
    let mut i: usize = 0;
    proof {
        assert(env.env_vars@.skip(0) =~= env.env_vars@);
    }
    while i < n
        invariant
            n == env.env_vars@.len(),
            i <= n,
            env_var_of(env.env_vars@.skip(i as int), name@) == env_var_of(
                env.env_vars@,
                name@,
            ),
        decreases n - i,
    {
        if str_eq(env.env_vars[i].name.as_str(), name) {
            proof {
                assert(env.env_vars@.skip(i as int)[0] == env.env_vars@[i as int]);
            }
            return Some(env.env_vars[i].value.clone());
        }
        proof {
            assert(env.env_vars@.skip(i as int).skip(1) =~= env.env_vars@.skip(
                i as int + 1,
            ));
        }
        i += 1;
    }
    None
}

/// Whether the snapshot says `p` exists.
pub fn path_exists(env: &Environment, p: &str) -> (r: bool)
    ensures
        r == file_exists(*env, p@),
{
    match require_path(env, p) {
        Probe::Found { .. } => true,
        Probe::Missing { .. } => false,
    }
}

} // verus!

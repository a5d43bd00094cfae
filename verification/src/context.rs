//! The execution context: built once per run, read by every step.

use vstd::prelude::*;
use crate::environment::matches_opt_str;
use crate::environment::resolved;
use crate::environment::require;
use crate::environment::Environment;
use crate::environment::Probe;
use crate::mode::RunType;

verus! {

/// The configuration values the steps consult.
#[derive(Debug)]
pub struct Config {
    /// Branch handed to `bash-it update`.
    pub bashit_branch: String,
    /// Run the package managers' cleanup sub-commands.
    pub cleanup: bool,
    /// Run `brew autoremove` after upgrading formulae.
    pub brew_autoremove: bool,
    /// Upgrade casks greedily.
    pub brew_cask_greedy: bool,
    /// Answer yes to `pkgin` prompts.
    pub yes_pkgin: bool,
}

/// Where the elevation helper resolves in the snapshot, if anywhere.
pub open spec fn sudo_of(env: Environment) -> Option<Seq<char>> {
    resolved(env, "sudo"@)
}

/// Process-wide state for one run: the run mode, the user's home directory,
/// the parsed configuration and the environment snapshot. Immutable for the
/// run's duration, except for the lazily memoized elevation command.
#[derive(Debug)]
pub struct ExecutionContext {
    pub run_type: RunType,
    pub home_dir: String,
    pub config: Config,
    pub env: Environment,
    /// `None` until the elevation command is first demanded; afterwards the
    /// memoized resolution.
    pub sudo_cache: Option<Option<String>>,
}

impl ExecutionContext {
    /// The memoized elevation command, when present, is the snapshot's
    /// resolution.
    pub open spec fn wf(self) -> bool {
        self.sudo_cache matches Some(s) ==> matches_opt_str(s, sudo_of(self.env))
    }

    /// Build the context before any step runs. The elevation command is not
    /// resolved yet.
    pub fn new(
        run_type: RunType,
        home_dir: String,
        config: Config,
        env: Environment,
    ) -> (c: ExecutionContext)
        ensures
            c.run_type == run_type,
            c.home_dir == home_dir,
            c.config == config,
            c.env == env,
            c.sudo_cache is None,
            c.wf(),
    {
        ExecutionContext { run_type, home_dir, config, env, sudo_cache: None }
    }

    /// The run mode every step must consult.
    pub fn run_type(&self) -> (r: RunType)
        ensures
            r == self.run_type,
    {
        self.run_type
    }

    /// The user's home directory.
    pub fn home_dir(&self) -> (r: &String)
        ensures
            r == self.home_dir,
    {
        &self.home_dir
    }

    /// The parsed configuration.
    pub fn config(&self) -> (r: &Config)
        ensures
            r == self.config,
    {
        &self.config
    }

    /// The environment snapshot.
    pub fn environment(&self) -> (r: &Environment)
        ensures
            r == self.env,
    {
        &self.env
    }

    /// The elevation command, resolved on first demand and memoized for the
    /// rest of the run. Nothing else in the context changes.
    pub fn sudo(&mut self) -> (r: Option<String>)
        requires
            old(self).wf(),
        ensures
            final(self).wf(),
            matches_opt_str(r, sudo_of(old(self).env)),
            final(self).run_type == old(self).run_type,
            final(self).home_dir == old(self).home_dir,
            final(self).config == old(self).config,
            final(self).env == old(self).env,
            final(self).sudo_cache is Some,
    {
        match &self.sudo_cache {
            Some(cached) => {
                match cached {
                    Some(p) => Some(p.clone()),
                    None => None,
                }
            },
            None => {
                let resolved_now = match require(&self.env, "sudo") {
                    Probe::Found { path } => Some(path),
                    Probe::Missing { .. } => None,
                };
                let copy = match &resolved_now {
                    Some(p) => Some(p.clone()),
                    None => None,
                };
                self.sudo_cache = Some(resolved_now);
                copy
            },
        }
    }
}

} // verus!

//! The step functions: each probes its prerequisites through the
//! requirement resolver and, when they are present, plans the sub-commands
//! to issue. A step never spawns anything itself; its plan is handed to the
//! executor, so a missing prerequisite ends the step as `Skip` before any
//! command exists.

use vstd::prelude::*;
use vstd::string::StringExecFns;
use crate::command::cmd_is;
use crate::command::planned;
use crate::command::AcceptPolicy;
use crate::command::CommandDesc;
use crate::command::PlannedCommand;
use crate::command::StepPlan;
use crate::context::sudo_of;
use crate::context::ExecutionContext;
use crate::environment::env_var;
use crate::environment::env_var_of;
use crate::environment::file_exists;
use crate::environment::missing_reason;
use crate::environment::path_missing_reason;
use crate::environment::require;
use crate::environment::require_path;
use crate::environment::resolved;
use crate::environment::Arch;
use crate::environment::Environment;
use crate::environment::Probe;
use crate::inifile::ini_general_lookup;
use crate::inifile::ini_general_value;
use crate::mode::RunType;
use crate::outcome::StepError;
use crate::strutil::concat_str;
use crate::strutil::contains_sub;
use crate::strutil::has_substring;
use crate::strutil::str_eq;

verus! {

/// The step ended as `Skip` with exactly this reason.
pub open spec fn skipped<T>(r: Result<T, StepError>, reason: Seq<char>) -> bool {
    r matches Err(e) && e matches StepError::Skip { reason: s } && s@ == reason
}

/// The step planned exactly one sub-command, under the plain acceptance
/// policy.
pub open spec fn single_run(
    r: Result<StepPlan, StepError>,
    title: Seq<char>,
    prog: Seq<char>,
    args: Seq<Seq<char>>,
) -> bool {
    &&& r matches Ok(p)
    &&& p.title@ == title
    &&& p.commands@.len() == 1
    &&& cmd_is(p.commands@[0], prog, args, AcceptPolicy::Success)
}

/// Wrap one finished command as a whole plan.
fn plan_one(title: &str, cmd: CommandDesc) -> (p: StepPlan)
    ensures
        p.title@ == title@,
        p.commands@.len() == 1,
        p.commands@[0].cmd == cmd,
        p.commands@[0].accept == AcceptPolicy::Success,
{
    let mut commands: Vec<PlannedCommand> = Vec::new();
    commands.push(planned(cmd));
    StepPlan { title: String::from_str(title), commands }
}

/// Pull the dotfile repository.
pub fn run_yadm(ctx: &ExecutionContext) -> (r: Result<StepPlan, StepError>)
    ensures
        resolved(ctx.env, "yadm"@) is None ==> skipped(r, missing_reason("yadm"@)),
        resolved(ctx.env, "yadm"@) matches Some(p) ==> single_run(
            r,
            "yadm"@,
            p,
            seq!["pull"@],
        ),
{
    let yadm = match require(&ctx.env, "yadm") {
        Probe::Found { path } => path,
        Probe::Missing { reason } => { return Err(StepError::Skip { reason }) },
    };
    let mut c = CommandDesc::new(yadm);
    c.arg("pull");
    proof {
        assert(c.args.deep_view() =~= seq!["pull"@]);
    }
    Ok(plan_one("yadm", c))
}

/// Switch to the current home-manager generation.
pub fn run_home_manager(ctx: &ExecutionContext) -> (r: Result<StepPlan, StepError>)
    ensures
        resolved(ctx.env, "home-manager"@) is None ==> skipped(
            r,
            missing_reason("home-manager"@),
        ),
        resolved(ctx.env, "home-manager"@) matches Some(p) ==> single_run(
            r,
            "home-manager"@,
            p,
            seq!["switch"@],
        ),
{
    let hm = match require(&ctx.env, "home-manager") {
        Probe::Found { path } => path,
        Probe::Missing { reason } => { return Err(StepError::Skip { reason }) },
    };
    let mut c = CommandDesc::new(hm);
    c.arg("switch");
    proof {
        assert(c.args.deep_view() =~= seq!["switch"@]);
    }
    Ok(plan_one("home-manager", c))
}

/// Refresh the tldr page cache.
pub fn run_tldr(ctx: &ExecutionContext) -> (r: Result<StepPlan, StepError>)
    ensures
        resolved(ctx.env, "tldr"@) is None ==> skipped(r, missing_reason("tldr"@)),
        resolved(ctx.env, "tldr"@) matches Some(p) ==> single_run(
            r,
            "TLDR"@,
            p,
            seq!["--update"@],
        ),
{
    let tldr = match require(&ctx.env, "tldr") {
        Probe::Found { path } => path,
        Probe::Missing { reason } => { return Err(StepError::Skip { reason }) },
    };
    let mut c = CommandDesc::new(tldr);
    c.arg("--update");
    proof {
        assert(c.args.deep_view() =~= seq!["--update"@]);
    }
    Ok(plan_one("TLDR", c))
}

/// Update the pearl packages.
pub fn run_pearl(ctx: &ExecutionContext) -> (r: Result<StepPlan, StepError>)
    ensures
        resolved(ctx.env, "pearl"@) is None ==> skipped(r, missing_reason("pearl"@)),
        resolved(ctx.env, "pearl"@) matches Some(p) ==> single_run(
            r,
            "pearl"@,
            p,
            seq!["update"@],
        ),
{
    let pearl = match require(&ctx.env, "pearl") {
        Probe::Found { path } => path,
        Probe::Missing { reason } => { return Err(StepError::Skip { reason }) },
    };
    let mut c = CommandDesc::new(pearl);
    c.arg("update");
    proof {
        assert(c.args.deep_view() =~= seq!["update"@]);
    }
    Ok(plan_one("pearl", c))
}

/// Upgrade the bun runtime.
pub fn run_bun(ctx: &ExecutionContext) -> (r: Result<StepPlan, StepError>)
    ensures
        resolved(ctx.env, "bun"@) is None ==> skipped(r, missing_reason("bun"@)),
        resolved(ctx.env, "bun"@) matches Some(p) ==> single_run(
            r,
            "Bun"@,
            p,
            seq!["upgrade"@],
        ),
{
    let bun = match require(&ctx.env, "bun") {
        Probe::Found { path } => path,
        Probe::Missing { reason } => { return Err(StepError::Skip { reason }) },
    };
    let mut c = CommandDesc::new(bun);
    c.arg("upgrade");
    proof {
        assert(c.args.deep_view() =~= seq!["upgrade"@]);
    }
    Ok(plan_one("Bun", c))
}

/// Update the asdf tool manager, then all of its plugins. The update
/// sub-command uses exit code 42 to mean "no update needed", so exactly that
/// code is additionally accepted for it.
pub fn run_asdf(ctx: &ExecutionContext) -> (r: Result<StepPlan, StepError>)
    ensures
        resolved(ctx.env, "asdf"@) is None ==> skipped(r, missing_reason("asdf"@)),
        resolved(ctx.env, "asdf"@) matches Some(p) ==> (r matches Ok(plan) && plan.title@
            == "asdf"@ && plan.commands@.len() == 2 && cmd_is(
            plan.commands@[0],
            p,
            seq!["update"@],
            AcceptPolicy::SuccessOr(42),
        ) && cmd_is(
            plan.commands@[1],
            p,
            seq!["plugin"@, "update"@, "--all"@],
            AcceptPolicy::Success,
        )),
{
    let asdf = match require(&ctx.env, "asdf") {
        Probe::Found { path } => path,
        Probe::Missing { reason } => { return Err(StepError::Skip { reason }) },
    };
    let mut c1 = CommandDesc::new(asdf.clone());
    c1.arg("update");
    proof {
        assert(c1.args.deep_view() =~= seq!["update"@]);
    }
    let mut c2 = CommandDesc::new(asdf);
    c2.arg("plugin");
    c2.arg("update");
    c2.arg("--all");
    proof {
        assert(c2.args.deep_view() =~= seq!["plugin"@, "update"@, "--all"@]);
    }
    let mut commands: Vec<PlannedCommand> = Vec::new();
    commands.push(PlannedCommand { cmd: c1, accept: AcceptPolicy::SuccessOr(42) });
    commands.push(planned(c2));
    Ok(StepPlan { title: String::from_str("asdf"), commands })
}

/// Update bash-it on the configured branch. The prerequisite is the
/// `.bash_it` directory in the user's home.
pub fn run_bashit(ctx: &ExecutionContext) -> (r: Result<StepPlan, StepError>)
    ensures
        !file_exists(ctx.env, ctx.home_dir@ + "/.bash_it"@) ==> skipped(
            r,
            path_missing_reason(ctx.home_dir@ + "/.bash_it"@),
        ),
        file_exists(ctx.env, ctx.home_dir@ + "/.bash_it"@) ==> single_run(
            r,
            "Bash-it"@,
            "bash"@,
            seq!["-lic"@, "bash-it update "@ + ctx.config.bashit_branch@],
        ),
{
    let marker = concat_str(ctx.home_dir.as_str(), "/.bash_it");
    match require_path(&ctx.env, marker.as_str()) {
        Probe::Found { .. } => {},
        Probe::Missing { reason } => { return Err(StepError::Skip { reason }) },
    };
    let mut c = CommandDesc::new(String::from_str("bash"));
    c.arg("-lic");
    let script = concat_str("bash-it update ", ctx.config.bashit_branch.as_str());
    c.arg(script.as_str());
    proof {
        assert(c.args.deep_view() =~= seq![
            "-lic"@,
            "bash-it update "@ + ctx.config.bashit_branch@,
        ]);
    }
    Ok(plan_one("Bash-it", c))
}

/// Update oh-my-fish. The prerequisites are the fish shell and the omf
/// function file in the user's home.
pub fn run_oh_my_fish(ctx: &ExecutionContext) -> (r: Result<StepPlan, StepError>)
    ensures
        resolved(ctx.env, "fish"@) is None ==> skipped(r, missing_reason("fish"@)),
        resolved(ctx.env, "fish"@) is Some && !file_exists(
            ctx.env,
            ctx.home_dir@ + "/.local/share/omf/pkg/omf/functions/omf.fish"@,
        ) ==> skipped(
            r,
            path_missing_reason(
                ctx.home_dir@ + "/.local/share/omf/pkg/omf/functions/omf.fish"@,
            ),
        ),
        resolved(ctx.env, "fish"@) matches Some(f) ==> (file_exists(
            ctx.env,
            ctx.home_dir@ + "/.local/share/omf/pkg/omf/functions/omf.fish"@,
        ) ==> single_run(r, "oh-my-fish"@, f, seq!["-c"@, "omf update"@])),
{
    let fish = match require(&ctx.env, "fish") {
        Probe::Found { path } => path,
        Probe::Missing { reason } => { return Err(StepError::Skip { reason }) },
    };
    let marker = concat_str(
        ctx.home_dir.as_str(),
        "/.local/share/omf/pkg/omf/functions/omf.fish",
    );
    match require_path(&ctx.env, marker.as_str()) {
        Probe::Found { .. } => {},
        Probe::Missing { reason } => { return Err(StepError::Skip { reason }) },
    };
    let mut c = CommandDesc::new(fish);
    c.arg("-c");
    c.arg("omf update");
    proof {
        assert(c.args.deep_view() =~= seq!["-c"@, "omf update"@]);
    }
    Ok(plan_one("oh-my-fish", c))
}

/// Update fish-plug. The prerequisites are the fish shell and the plug
/// function file in the user's home.
pub fn run_fish_plug(ctx: &ExecutionContext) -> (r: Result<StepPlan, StepError>)
    ensures
        resolved(ctx.env, "fish"@) is None ==> skipped(r, missing_reason("fish"@)),
        resolved(ctx.env, "fish"@) is Some && !file_exists(
            ctx.env,
            ctx.home_dir@
                + "/.local/share/fish/plug/kidonng/fish-plug/functions/plug.fish"@,
        ) ==> skipped(
            r,
            path_missing_reason(
                ctx.home_dir@
                    + "/.local/share/fish/plug/kidonng/fish-plug/functions/plug.fish"@,
            ),
        ),
        resolved(ctx.env, "fish"@) matches Some(f) ==> (file_exists(
            ctx.env,
            ctx.home_dir@
                + "/.local/share/fish/plug/kidonng/fish-plug/functions/plug.fish"@,
        ) ==> single_run(r, "fish-plug"@, f, seq!["-c"@, "plug update"@])),
{
    let fish = match require(&ctx.env, "fish") {
        Probe::Found { path } => path,
        Probe::Missing { reason } => { return Err(StepError::Skip { reason }) },
    };
    let marker = concat_str(
        ctx.home_dir.as_str(),
        "/.local/share/fish/plug/kidonng/fish-plug/functions/plug.fish",
    );
    match require_path(&ctx.env, marker.as_str()) {
        Probe::Found { .. } => {},
        Probe::Missing { reason } => { return Err(StepError::Skip { reason }) },
    };
    let mut c = CommandDesc::new(fish);
    c.arg("-c");
    c.arg("plug update");
    proof {
        assert(c.args.deep_view() =~= seq!["-c"@, "plug update"@]);
    }
    Ok(plan_one("fish-plug", c))
}

/// Update fisher plugins. The prerequisites are the fish shell and — unless
/// the `fisher_path` variable is set — the fisher function file in the
/// user's home.
pub fn run_fisher(ctx: &ExecutionContext) -> (r: Result<StepPlan, StepError>)
    ensures
        resolved(ctx.env, "fish"@) is None ==> skipped(r, missing_reason("fish"@)),
        resolved(ctx.env, "fish"@) is Some && env_var_of(
            ctx.env.env_vars@,
            "fisher_path"@,
        ) is None && !file_exists(
            ctx.env,
            ctx.home_dir@ + "/.config/fish/functions/fisher.fish"@,
        ) ==> skipped(
            r,
            path_missing_reason(ctx.home_dir@ + "/.config/fish/functions/fisher.fish"@),
        ),
        resolved(ctx.env, "fish"@) matches Some(f) ==> ((env_var_of(
            ctx.env.env_vars@,
            "fisher_path"@,
        ) is Some || file_exists(
            ctx.env,
            ctx.home_dir@ + "/.config/fish/functions/fisher.fish"@,
        )) ==> single_run(r, "Fisher"@, f, seq!["-c"@, "fisher update"@])),
{
    let fish = match require(&ctx.env, "fish") {
        Probe::Found { path } => path,
        Probe::Missing { reason } => { return Err(StepError::Skip { reason }) },
    };
    let fisher_var = env_var(&ctx.env, "fisher_path");
    if fisher_var.is_none() {
        let marker = concat_str(ctx.home_dir.as_str(), "/.config/fish/functions/fisher.fish");
        match require_path(&ctx.env, marker.as_str()) {
            Probe::Found { .. } => {},
            Probe::Missing { reason } => { return Err(StepError::Skip { reason }) },
        };
    }
    let mut c = CommandDesc::new(fish);
    c.arg("-c");
    c.arg("fisher update");
    proof {
        assert(c.args.deep_view() =~= seq!["-c"@, "fisher update"@]);
    }
    Ok(plan_one("Fisher", c))
}

/// The path of an Intel-native brew installation.
pub open spec fn intel_brew() -> Seq<char> {
    "/usr/local/bin/brew"@
}

/// The path of an ARM-native brew installation.
pub open spec fn arm_brew() -> Seq<char> {
    "/opt/homebrew/bin/brew"@
}

/// The mutually exclusive brew installations the brew steps can drive:
/// whatever `brew` the search path yields, or one of the two fixed
/// machine-wide install roots. Which variants are present is resolved from
/// the environment snapshot alone, by read-only existence checks.
#[derive(Clone, Copy, Debug, PartialEq, Eq, Structural)]
pub enum BrewVariant {
    Path,
    MacIntel,
    MacArm,
}

/// The binary identifier each variant invokes.
pub open spec fn brew_binary_of(v: BrewVariant) -> Seq<char> {
    match v {
        BrewVariant::Path => "brew"@,
        BrewVariant::MacIntel => intel_brew(),
        BrewVariant::MacArm => arm_brew(),
    }
}

/// Both fixed install roots are present in the snapshot.
pub open spec fn both_brews_exist(env: Environment) -> bool {
    file_exists(env, intel_brew()) && file_exists(env, arm_brew())
}

/// The step title, disambiguated when both install roots are present.
pub open spec fn brew_title(v: BrewVariant, env: Environment) -> Seq<char> {
    if v is MacArm && both_brews_exist(env) {
        "Brew (ARM)"@
    } else if v is MacIntel && both_brews_exist(env) {
        "Brew (Intel)"@
    } else {
        "Brew"@
    }
}

/// The program a variant's commands start with: the architecture
/// translation layer when the variant's native architecture differs from
/// the process's, else the variant's own binary.
pub open spec fn brew_base_program(v: BrewVariant, arch: Arch) -> Seq<char> {
    if (v is MacIntel && arch is Aarch64) || (v is MacArm && arch is X64) {
        "arch"@
    } else {
        brew_binary_of(v)
    }
}

/// The argument prefix forced by the architecture translation, if any.
pub open spec fn brew_base_args(v: BrewVariant, arch: Arch) -> Seq<Seq<char>> {
    if v is MacIntel && arch is Aarch64 {
        seq!["-x86_64"@, intel_brew()]
    } else if v is MacArm && arch is X64 {
        seq!["-arm64e"@, arm_brew()]
    } else {
        Seq::empty()
    }
}

/// Where a variant's binary is found in the snapshot: the `Path` variant by
/// a search-path probe, the fixed roots by an existence check.
pub open spec fn brew_probe(v: BrewVariant, env: Environment) -> Option<Seq<char>> {
    match v {
        BrewVariant::Path => resolved(env, "brew"@),
        BrewVariant::MacIntel => if file_exists(env, intel_brew()) {
            Some(intel_brew())
        } else {
            None
        },
        BrewVariant::MacArm => if file_exists(env, arm_brew()) {
            Some(arm_brew())
        } else {
            None
        },
    }
}

/// On macOS, a `Path` variant whose binary is one of the fixed roots is not
/// a custom brew and its step is skipped.
pub open spec fn brew_not_custom(v: BrewVariant, env: Environment, b: Seq<char>) -> bool {
    env.macos && v is Path && (b == intel_brew() || b == arm_brew())
}

/// The planned command `c` is `extra` under the variant's base command.
pub open spec fn brew_cmd(
    c: PlannedCommand,
    v: BrewVariant,
    arch: Arch,
    extra: Seq<Seq<char>>,
) -> bool {
    cmd_is(c, brew_base_program(v, arch), brew_base_args(v, arch) + extra,
        AcceptPolicy::Success)
}

impl BrewVariant {
    /// The binary identifier this variant invokes.
    pub fn binary_name(self) -> (r: &'static str)
        ensures
            r@ == brew_binary_of(self),
    {
        match self {
            BrewVariant::Path => "brew",
            BrewVariant::MacIntel => "/usr/local/bin/brew",
            BrewVariant::MacArm => "/opt/homebrew/bin/brew",
        }
    }

    /// This is the search-path variant.
    pub fn is_path(&self) -> (r: bool)
        ensures
            r == (*self is Path),
    {
        matches!(self, BrewVariant::Path)
    }

    /// Both fixed install roots are present.
    pub fn both_both_exist(env: &Environment) -> (r: bool)
        ensures
            r == both_brews_exist(*env),
    {
        let intel = crate::environment::path_exists(env, "/usr/local/bin/brew");
        let arm = crate::environment::path_exists(env, "/opt/homebrew/bin/brew");
        intel && arm
    }

    /// The title under which this variant's step reports, with a
    /// disambiguating suffix when both install roots are present.
    pub fn step_title(self, env: &Environment) -> (r: &'static str)
        ensures
            r@ == brew_title(self, *env),
    {
        let both_exists = Self::both_both_exist(env);
        match self {
            BrewVariant::MacArm => if both_exists {
                "Brew (ARM)"
            } else {
                "Brew"
            },
            BrewVariant::MacIntel => if both_exists {
                "Brew (Intel)"
            } else {
                "Brew"
            },
            BrewVariant::Path => "Brew",
        }
    }

    /// Start this variant's command, inserting the architecture translation
    /// layer when the variant's native architecture differs from the
    /// snapshot's.
    pub fn execute(self, env: &Environment) -> (c: CommandDesc)
        ensures
            c.program@ == brew_base_program(self, env.arch),
            c.args.deep_view() == brew_base_args(self, env.arch),
    {
        let translate_intel = matches!(self, BrewVariant::MacIntel) && matches!(
            env.arch,
            Arch::Aarch64,
        );
        let translate_arm = matches!(self, BrewVariant::MacArm) && matches!(
            env.arch,
            Arch::X64,
        );
        if translate_intel {
            let mut c = CommandDesc::new(String::from_str("arch"));
            c.arg("-x86_64");
            c.arg("/usr/local/bin/brew");
            proof {
                assert(c.args.deep_view() =~= seq!["-x86_64"@, intel_brew()]);
            }
            c
        } else if translate_arm {
            let mut c = CommandDesc::new(String::from_str("arch"));
            c.arg("-arm64e");
            c.arg("/opt/homebrew/bin/brew");
            proof {
                assert(c.args.deep_view() =~= seq!["-arm64e"@, arm_brew()]);
            }
            c
        } else {
            let c = CommandDesc::new(self.binary_name().to_owned());
            proof {
                assert(c.args.deep_view() =~= brew_base_args(self, env.arch));
            }
            c
        }
    }

    /// The binary is not one of the two fixed macOS install roots.
    pub fn is_macos_custom(binary_name: &str) -> (r: bool)
        ensures
            r == (binary_name@ != intel_brew() && binary_name@ != arm_brew()),
    {
        let is_intel = crate::strutil::str_eq(binary_name, "/usr/local/bin/brew");
        let is_arm = crate::strutil::str_eq(binary_name, "/opt/homebrew/bin/brew");
        !(is_intel || is_arm)
    }
}

/// Variant resolution is deterministic: one filesystem/architecture
/// snapshot yields one probe result, one title and one base command for
/// each variant, so resolving twice yields the same variant selection and
/// the same label.
pub proof fn lemma_variant_resolution_deterministic(
    v: BrewVariant,
    e1: Environment,
    e2: Environment,
)
    requires
        e1 == e2,
    ensures
        brew_probe(v, e1) == brew_probe(v, e2),
        brew_title(v, e1) == brew_title(v, e2),
        brew_base_program(v, e1.arch) == brew_base_program(v, e2.arch),
        brew_base_args(v, e1.arch) == brew_base_args(v, e2.arch),
{
}

fn probe_brew(ctx: &ExecutionContext, variant: BrewVariant) -> (r: Result<
    String,
    StepError,
>)
    ensures
        variant is Path && resolved(ctx.env, "brew"@) is None ==> skipped(
            r,
            missing_reason("brew"@),
        ),
        !(variant is Path) && !file_exists(ctx.env, brew_binary_of(variant)) ==> skipped(
            r,
            path_missing_reason(brew_binary_of(variant)),
        ),
        brew_probe(variant, ctx.env) matches Some(b) ==> (r matches Ok(p) && p@ == b),
        brew_probe(variant, ctx.env) is None ==> r is Err,
{
    let probe = if variant.is_path() {
        require(&ctx.env, "brew")
    } else {
        require_path(&ctx.env, variant.binary_name())
    };
    match probe {
        Probe::Found { path } => Ok(path),
        Probe::Missing { reason } => Err(StepError::Skip { reason }),
    }
}

/// Update brew and upgrade its formulae, then clean up and autoremove as
/// configured.
pub fn run_brew_formula(ctx: &ExecutionContext, variant: BrewVariant) -> (r: Result<
    StepPlan,
    StepError,
>)
    ensures
        variant is Path && resolved(ctx.env, "brew"@) is None ==> skipped(
            r,
            missing_reason("brew"@),
        ),
        !(variant is Path) && !file_exists(ctx.env, brew_binary_of(variant)) ==> skipped(
            r,
            path_missing_reason(brew_binary_of(variant)),
        ),
        brew_probe(variant, ctx.env) matches Some(b) ==> (brew_not_custom(
            variant,
            ctx.env,
            b,
        ) ==> skipped(r, "Not a custom brew for macOS"@)),
        brew_probe(variant, ctx.env) matches Some(b) ==> (!brew_not_custom(
            variant,
            ctx.env,
            b,
        ) ==> (r matches Ok(plan) && plan.title@ == brew_title(variant, ctx.env)
            && plan.commands@.len() == 2 + (if ctx.config.cleanup {
            1int
        } else {
            0int
        }) + (if ctx.config.brew_autoremove {
            1int
        } else {
            0int
        }) && brew_cmd(plan.commands@[0], variant, ctx.env.arch, seq!["update"@])
            && brew_cmd(
            plan.commands@[1],
            variant,
            ctx.env.arch,
            seq!["upgrade"@, "--ignore-pinned"@, "--formula"@],
        ) && (ctx.config.cleanup ==> brew_cmd(
            plan.commands@[2],
            variant,
            ctx.env.arch,
            seq!["cleanup"@],
        )) && (ctx.config.brew_autoremove ==> brew_cmd(
            plan.commands@[if ctx.config.cleanup {
                3int
            } else {
                2int
            }],
            variant,
            ctx.env.arch,
            seq!["autoremove"@],
        )))),
{
    let binary_name = match probe_brew(ctx, variant) {
        Ok(p) => p,
        Err(e) => { return Err(e) },
    };
    if ctx.env.macos && variant.is_path() && !BrewVariant::is_macos_custom(
        binary_name.as_str(),
    ) {
        return Err(
            StepError::Skip { reason: String::from_str("Not a custom brew for macOS") },
        );
    }
    let mut commands: Vec<PlannedCommand> = Vec::new();
    let mut c = variant.execute(&ctx.env);
    c.arg("update");
    proof {
        assert(c.args.deep_view() =~= brew_base_args(variant, ctx.env.arch) + seq![
            "update"@,
        ]);
    }
    commands.push(planned(c));
    let mut c = variant.execute(&ctx.env);
    c.arg("upgrade");
    c.arg("--ignore-pinned");
    c.arg("--formula");
    proof {
        assert(c.args.deep_view() =~= brew_base_args(variant, ctx.env.arch) + seq![
            "upgrade"@,
            "--ignore-pinned"@,
            "--formula"@,
        ]);
    }
    commands.push(planned(c));
    if ctx.config.cleanup {
        let mut c = variant.execute(&ctx.env);
        c.arg("cleanup");
        proof {
            assert(c.args.deep_view() =~= brew_base_args(variant, ctx.env.arch) + seq![
                "cleanup"@,
            ]);
        }
        commands.push(planned(c));
    }
    if ctx.config.brew_autoremove {
        let mut c = variant.execute(&ctx.env);
        c.arg("autoremove");
        proof {
            assert(c.args.deep_view() =~= brew_base_args(variant, ctx.env.arch) + seq![
                "autoremove"@,
            ]);
        }
        commands.push(planned(c));
    }
    Ok(StepPlan { title: String::from_str(variant.step_title(&ctx.env)), commands })
}

/// The probe command whose captured output tells whether the cask-upgrade
/// tap is installed. In `Dry` mode no command is handed out: in `Simulate`
/// no process is ever spawned, the probe included.
pub fn cask_repo_query(ctx: &ExecutionContext, variant: BrewVariant) -> (r: Option<
    CommandDesc,
>)
    ensures
        ctx.run_type == RunType::Dry ==> r is None,
        ctx.run_type == RunType::Wet ==> (r matches Some(c) && c.program@
            == brew_base_program(variant, ctx.env.arch) && c.args.deep_view()
            == brew_base_args(variant, ctx.env.arch) + seq![
            "--repository"@,
            "buo/cask-upgrade"@,
        ]),
{
    match ctx.run_type() {
        RunType::Dry => None,
        RunType::Wet => {
            let mut c = variant.execute(&ctx.env);
            c.arg("--repository");
            c.arg("buo/cask-upgrade");
            proof {
                assert(c.args.deep_view() =~= brew_base_args(variant, ctx.env.arch)
                    + seq!["--repository"@, "buo/cask-upgrade"@]);
            }
            Some(c)
        },
    }
}

/// The upgrade arguments for casks: through the cask-upgrade tap when the
/// probe found its repository, else plain `upgrade --cask`, greedily when
/// configured. With no probe made (`Simulate` mode) the built-in upgrade
/// path is planned.
pub open spec fn cask_args(cask_upgrade_exists: Option<bool>, greedy: bool) -> Seq<
    Seq<char>,
> {
    if cask_upgrade_exists == Some(true) {
        if greedy {
            seq!["cu"@, "-y"@, "-a"@]
        } else {
            seq!["cu"@, "-y"@]
        }
    } else {
        if greedy {
            seq!["upgrade"@, "--cask"@, "--greedy"@]
        } else {
            seq!["upgrade"@, "--cask"@]
        }
    }
}

/// Upgrade brew casks. `cask_upgrade_exists` reports whether the probe
/// command's output named an existing repository path (`None`: no probe was
/// made, `Simulate` mode).
pub fn run_brew_cask(
    ctx: &ExecutionContext,
    variant: BrewVariant,
    cask_upgrade_exists: Option<bool>,
) -> (r: Result<StepPlan, StepError>)
    requires
        ctx.env.macos,
    ensures
        variant is Path && resolved(ctx.env, "brew"@) is None ==> skipped(
            r,
            missing_reason("brew"@),
        ),
        !(variant is Path) && !file_exists(ctx.env, brew_binary_of(variant)) ==> skipped(
            r,
            path_missing_reason(brew_binary_of(variant)),
        ),
        brew_probe(variant, ctx.env) matches Some(b) ==> (brew_not_custom(
            variant,
            ctx.env,
            b,
        ) ==> skipped(r, "Not a custom brew for macOS"@)),
        brew_probe(variant, ctx.env) matches Some(b) ==> (!brew_not_custom(
            variant,
            ctx.env,
            b,
        ) ==> (r matches Ok(plan) && plan.title@ == brew_title(variant, ctx.env)
            + " - Cask"@ && plan.commands@.len() == 1 + (if ctx.config.cleanup {
            1int
        } else {
            0int
        }) && brew_cmd(
            plan.commands@[0],
            variant,
            ctx.env.arch,
            cask_args(cask_upgrade_exists, ctx.config.brew_cask_greedy),
        ) && (ctx.config.cleanup ==> brew_cmd(
            plan.commands@[1],
            variant,
            ctx.env.arch,
            seq!["cleanup"@],
        )))),
{
    let binary_name = match probe_brew(ctx, variant) {
        Ok(p) => p,
        Err(e) => { return Err(e) },
    };
    if variant.is_path() && !BrewVariant::is_macos_custom(binary_name.as_str()) {
        return Err(
            StepError::Skip { reason: String::from_str("Not a custom brew for macOS") },
        );
    }
    let title = concat_str(variant.step_title(&ctx.env), " - Cask");
    let mut commands: Vec<PlannedCommand> = Vec::new();
    let mut c = variant.execute(&ctx.env);
    let use_tap = matches!(cask_upgrade_exists, Some(true));
    if use_tap {
        c.arg("cu");
        c.arg("-y");
        if ctx.config.brew_cask_greedy {
            c.arg("-a");
        }
    } else {
        c.arg("upgrade");
        c.arg("--cask");
        if ctx.config.brew_cask_greedy {
            c.arg("--greedy");
        }
    }
    proof {
        assert(c.args.deep_view() =~= brew_base_args(variant, ctx.env.arch) + cask_args(
            cask_upgrade_exists,
            ctx.config.brew_cask_greedy,
        ));
    }
    commands.push(planned(c));
    if ctx.config.cleanup {
        let mut c = variant.execute(&ctx.env);
        c.arg("cleanup");
        proof {
            assert(c.args.deep_view() =~= brew_base_args(variant, ctx.env.arch) + seq![
                "cleanup"@,
            ]);
        }
        commands.push(planned(c));
    }
    Ok(StepPlan { title, commands })
}

/// The arguments `pkgin` sub-commands get: the resolved binary, the
/// sub-command, and `-y` when configured to answer yes.
pub open spec fn pkgin_args(pk: Seq<char>, sub: Seq<char>, yes: bool) -> Seq<Seq<char>> {
    if yes {
        seq![pk, sub, "-y"@]
    } else {
        seq![pk, sub]
    }
}

/// Update and upgrade pkgin packages, each sub-command through the
/// elevation helper, which is resolved on first demand and memoized in the
/// context. The helper is itself a prerequisite: without one the step is
/// skipped.
pub fn run_pkgin(ctx: &mut ExecutionContext) -> (r: Result<StepPlan, StepError>)
    requires
        old(ctx).wf(),
    ensures
        final(ctx).wf(),
        final(ctx).run_type == old(ctx).run_type,
        final(ctx).home_dir == old(ctx).home_dir,
        final(ctx).config == old(ctx).config,
        final(ctx).env == old(ctx).env,
        resolved(old(ctx).env, "pkgin"@) is None ==> skipped(
            r,
            missing_reason("pkgin"@),
        ),
        resolved(old(ctx).env, "pkgin"@) is Some && sudo_of(old(ctx).env) is None
            ==> skipped(r, missing_reason("sudo"@)),
        resolved(old(ctx).env, "pkgin"@) matches Some(pk) ==> (sudo_of(
            old(ctx).env,
        ) matches Some(su) ==> (r matches Ok(plan) && plan.title@ == "Pkgin"@
            && plan.commands@.len() == 2 && cmd_is(
            plan.commands@[0],
            su,
            pkgin_args(pk, "update"@, old(ctx).config.yes_pkgin),
            AcceptPolicy::Success,
        ) && cmd_is(
            plan.commands@[1],
            su,
            pkgin_args(pk, "upgrade"@, old(ctx).config.yes_pkgin),
            AcceptPolicy::Success,
        ))),
{
    let pkgin = match require(&ctx.env, "pkgin") {
        Probe::Found { path } => path,
        Probe::Missing { reason } => { return Err(StepError::Skip { reason }) },
    };
    let su = match ctx.sudo() {
        Some(s) => s,
        None => {
            let quoted = concat_str("\"", "sudo");
            let reason = concat_str(quoted.as_str(), "\" not found");
            return Err(StepError::Skip { reason });
        },
    };
    let yes = ctx.config.yes_pkgin;
    let mut c1 = CommandDesc::new(su.clone());
    c1.arg(pkgin.as_str());
    c1.arg("update");
    if yes {
        c1.arg("-y");
    }
    proof {
        assert(c1.args.deep_view() =~= pkgin_args(pkgin@, "update"@, yes));
    }
    let mut c2 = CommandDesc::new(su);
    c2.arg(pkgin.as_str());
    c2.arg("upgrade");
    if yes {
        c2.arg("-y");
    }
    proof {
        assert(c2.args.deep_view() =~= pkgin_args(pkgin@, "upgrade"@, yes));
    }
    let mut commands: Vec<PlannedCommand> = Vec::new();
    commands.push(planned(c1));
    commands.push(planned(c2));
    Ok(StepPlan { title: String::from_str("Pkgin"), commands })
}

/// A probe whose outcome was never observed — because in `Simulate` mode no
/// probe process may be spawned — counts as a success for planning, so the
/// preview shows the full step.
pub open spec fn probe_ok(o: Option<bool>) -> bool {
    match o {
        Some(b) => b,
        None => true,
    }
}

/// The `guix pull` command whose real outcome decides whether upgrading is
/// possible. In `Dry` mode no command is handed out: in `Simulate` no
/// process is ever spawned, the probe included.
pub fn guix_pull_probe(ctx: &ExecutionContext) -> (r: Result<
    Option<CommandDesc>,
    StepError,
>)
    ensures
        resolved(ctx.env, "guix"@) is None ==> skipped(r, missing_reason("guix"@)),
        resolved(ctx.env, "guix"@) is Some && ctx.run_type == RunType::Dry ==> (r matches
            Ok(oc) && oc is None),
        resolved(ctx.env, "guix"@) matches Some(g) ==> (ctx.run_type == RunType::Wet ==> (
        r matches Ok(oc) && (oc matches Some(c) && c.program@ == g && c.args.deep_view()
            == seq!["pull"@]))),
{
    let guix = match require(&ctx.env, "guix") {
        Probe::Found { path } => path,
        Probe::Missing { reason } => { return Err(StepError::Skip { reason }) },
    };
    match ctx.run_type() {
        RunType::Dry => Ok(None),
        RunType::Wet => {
            let mut c = CommandDesc::new(guix);
            c.arg("pull");
            proof {
                assert(c.args.deep_view() =~= seq!["pull"@]);
            }
            Ok(Some(c))
        },
    }
}

/// Upgrade guix packages. `pull_ok` reports whether the `guix pull` probe
/// succeeded; `None` means no probe was made (`Simulate` mode), which plans
/// the upgrade for preview. A failed pull skips the step.
pub fn run_guix(ctx: &ExecutionContext, pull_ok: Option<bool>) -> (r: Result<
    StepPlan,
    StepError,
>)
    ensures
        resolved(ctx.env, "guix"@) is None ==> skipped(r, missing_reason("guix"@)),
        resolved(ctx.env, "guix"@) is Some && !probe_ok(pull_ok) ==> skipped(
            r,
            "Guix Pull Failed, Skipping"@,
        ),
        resolved(ctx.env, "guix"@) matches Some(g) ==> (probe_ok(pull_ok) ==> single_run(
            r,
            "Guix"@,
            g,
            seq!["package"@, "-u"@],
        )),
{
    let guix = match require(&ctx.env, "guix") {
        Probe::Found { path } => path,
        Probe::Missing { reason } => { return Err(StepError::Skip { reason }) },
    };
    let ok = match pull_ok {
        Some(b) => b,
        None => true,
    };
    if !ok {
        return Err(
            StepError::Skip { reason: String::from_str("Guix Pull Failed, Skipping") },
        );
    }
    let mut c = CommandDesc::new(guix);
    c.arg("package");
    c.arg("-u");
    proof {
        assert(c.args.deep_view() =~= seq!["package"@, "-u"@]);
    }
    Ok(plan_one("Guix", c))
}

/// All of the nix step's prerequisites hold: the three binaries resolve and
/// no platform-specific upgrade mechanism takes precedence.
pub open spec fn nix_ready(env: Environment) -> bool {
    &&& resolved(env, "nix"@) is Some
    &&& resolved(env, "nix-channel"@) is Some
    &&& resolved(env, "nix-env"@) is Some
    &&& !env.nixos
    &&& !(env.macos && resolved(env, "darwin-rebuild"@) is Some)
}

/// The query command whose real outcome decides whether nix can upgrade
/// itself. In `Dry` mode no command is handed out: in `Simulate` no process
/// is ever spawned, the probe included.
pub fn nix_env_query(ctx: &ExecutionContext) -> (r: Result<
    Option<CommandDesc>,
    StepError,
>)
    ensures
        resolved(ctx.env, "nix-env"@) is None ==> skipped(
            r,
            missing_reason("nix-env"@),
        ),
        resolved(ctx.env, "nix-env"@) is Some && ctx.run_type == RunType::Dry ==> (
        r matches Ok(oc) && oc is None),
        resolved(ctx.env, "nix-env"@) matches Some(ne) ==> (ctx.run_type == RunType::Wet
            ==> (r matches Ok(oc) && (oc matches Some(c) && c.program@ == ne
            && c.args.deep_view() == seq!["--query"@, "nix"@]))),
{
    let ne = match require(&ctx.env, "nix-env") {
        Probe::Found { path } => path,
        Probe::Missing { reason } => { return Err(StepError::Skip { reason }) },
    };
    match ctx.run_type() {
        RunType::Dry => Ok(None),
        RunType::Wet => {
            let mut c = CommandDesc::new(ne);
            c.arg("--query");
            c.arg("nix");
            proof {
                assert(c.args.deep_view() =~= seq!["--query"@, "nix"@]);
            }
            Ok(Some(c))
        },
    }
}

/// Upgrade nix itself (elevated for a multi-user installation), then the
/// channels, then the user environment. `should_self_upgrade` reports
/// whether the query probe succeeded (`None`: no probe was made, `Simulate`
/// mode, and the self-upgrade is planned for preview); `multi_user` whether
/// the nix binary is owned by root. The elevation helper a multi-user
/// self-upgrade needs is itself a prerequisite: without one the step is
/// skipped.
pub fn run_nix(
    ctx: &mut ExecutionContext,
    should_self_upgrade: Option<bool>,
    multi_user: bool,
) -> (r: Result<StepPlan, StepError>)
    requires
        old(ctx).wf(),
    ensures
        final(ctx).wf(),
        final(ctx).run_type == old(ctx).run_type,
        final(ctx).home_dir == old(ctx).home_dir,
        final(ctx).config == old(ctx).config,
        final(ctx).env == old(ctx).env,
        resolved(old(ctx).env, "nix"@) is None ==> skipped(r, missing_reason("nix"@)),
        resolved(old(ctx).env, "nix"@) is Some && resolved(
            old(ctx).env,
            "nix-channel"@,
        ) is None ==> skipped(r, missing_reason("nix-channel"@)),
        resolved(old(ctx).env, "nix"@) is Some && resolved(
            old(ctx).env,
            "nix-channel"@,
        ) is Some && resolved(old(ctx).env, "nix-env"@) is None ==> skipped(
            r,
            missing_reason("nix-env"@),
        ),
        resolved(old(ctx).env, "nix"@) is Some && resolved(
            old(ctx).env,
            "nix-channel"@,
        ) is Some && resolved(old(ctx).env, "nix-env"@) is Some && old(ctx).env.nixos
            ==> skipped(r, "Nix on NixOS must be upgraded via nixos-rebuild switch"@),
        resolved(old(ctx).env, "nix"@) is Some && resolved(
            old(ctx).env,
            "nix-channel"@,
        ) is Some && resolved(old(ctx).env, "nix-env"@) is Some && !old(ctx).env.nixos
            && old(ctx).env.macos && resolved(old(ctx).env, "darwin-rebuild"@) is Some
            ==> skipped(
            r,
            "Nix-darwin on macOS must be upgraded via darwin-rebuild switch"@,
        ),
        nix_ready(old(ctx).env) && probe_ok(should_self_upgrade) && multi_user
            && sudo_of(old(ctx).env) is None ==> skipped(r, missing_reason("sudo"@)),
        nix_ready(old(ctx).env) && probe_ok(should_self_upgrade) && !multi_user ==> (
        r matches Ok(plan) && (resolved(old(ctx).env, "nix"@) matches Some(nx) && cmd_is(
            plan.commands@[0],
            nx,
            seq!["upgrade-nix"@],
            AcceptPolicy::Success,
        ))),
        sudo_of(old(ctx).env) matches Some(su) ==> (nix_ready(old(ctx).env) && probe_ok(
            should_self_upgrade,
        ) && multi_user ==> (r matches Ok(plan) && (resolved(
            old(ctx).env,
            "nix"@,
        ) matches Some(nx) && cmd_is(
            plan.commands@[0],
            su,
            seq![nx, "upgrade-nix"@],
            AcceptPolicy::Success,
        )))),
        nix_ready(old(ctx).env) && (probe_ok(should_self_upgrade) && multi_user
            ==> sudo_of(old(ctx).env) is Some) ==> (r matches Ok(plan) && plan.title@
            == "Nix"@ && plan.commands@.len() == 2 + (if probe_ok(should_self_upgrade) {
            1int
        } else {
            0int
        }) && (resolved(old(ctx).env, "nix-channel"@) matches Some(nc) && cmd_is(
            plan.commands@[if probe_ok(should_self_upgrade) {
                1int
            } else {
                0int
            }],
            nc,
            seq!["--update"@],
            AcceptPolicy::Success,
        )) && (resolved(old(ctx).env, "nix-env"@) matches Some(ne) && cmd_is(
            plan.commands@[if probe_ok(should_self_upgrade) {
                2int
            } else {
                1int
            }],
            ne,
            seq!["--upgrade"@],
            AcceptPolicy::Success,
        ))),
{
    let nix = match require(&ctx.env, "nix") {
        Probe::Found { path } => path,
        Probe::Missing { reason } => { return Err(StepError::Skip { reason }) },
    };
    let nix_channel = match require(&ctx.env, "nix-channel") {
        Probe::Found { path } => path,
        Probe::Missing { reason } => { return Err(StepError::Skip { reason }) },
    };
    let nix_env_bin = match require(&ctx.env, "nix-env") {
        Probe::Found { path } => path,
        Probe::Missing { reason } => { return Err(StepError::Skip { reason }) },
    };
    if ctx.env.nixos {
        return Err(
            StepError::Skip {
                reason: String::from_str(
                    "Nix on NixOS must be upgraded via nixos-rebuild switch",
                ),
            },
        );
    }
    if ctx.env.macos {
        match require(&ctx.env, "darwin-rebuild") {
            Probe::Found { .. } => {
                return Err(
                    StepError::Skip {
                        reason: String::from_str(
                            "Nix-darwin on macOS must be upgraded via darwin-rebuild switch",
                        ),
                    },
                );
            },
            Probe::Missing { .. } => {},
        }
    }
    let self_upgrade = match should_self_upgrade {
        Some(b) => b,
        None => true,
    };
    let mut commands: Vec<PlannedCommand> = Vec::new();
    if self_upgrade {
        if multi_user {
            let su = match ctx.sudo() {
                Some(s) => s,
                None => {
                    let quoted = concat_str("\"", "sudo");
                    let reason = concat_str(quoted.as_str(), "\" not found");
                    return Err(StepError::Skip { reason });
                },
            };
            let mut c = CommandDesc::new(su);
            c.arg(nix.as_str());
            c.arg("upgrade-nix");
            proof {
                assert(c.args.deep_view() =~= seq![nix@, "upgrade-nix"@]);
            }
            commands.push(planned(c));
        } else {
            let mut c = CommandDesc::new(nix);
            c.arg("upgrade-nix");
            proof {
                assert(c.args.deep_view() =~= seq!["upgrade-nix"@]);
            }
            commands.push(planned(c));
        }
    }
    let mut c = CommandDesc::new(nix_channel);
    c.arg("--update");
    proof {
        assert(c.args.deep_view() =~= seq!["--update"@]);
    }
    commands.push(planned(c));
    let mut c = CommandDesc::new(nix_env_bin);
    c.arg("--upgrade");
    proof {
        assert(c.args.deep_view() =~= seq!["--upgrade"@]);
    }
    commands.push(planned(c));
    Ok(StepPlan { title: String::from_str("Nix"), commands })
}

/// The desktop session identifies itself as GNOME.
pub open spec fn gnome_desktop_ok(env: Environment) -> bool {
    env_var_of(env.env_vars@, "XDG_CURRENT_DESKTOP"@) matches Some(v) && has_substring(
        v,
        "GNOME"@,
    )
}

/// The arguments listing the activatable D-Bus names.
pub open spec fn gnome_list_args() -> Seq<Seq<char>> {
    seq![
        "call"@,
        "--session"@,
        "--dest"@,
        "org.freedesktop.DBus"@,
        "--object-path"@,
        "/org/freedesktop/DBus"@,
        "--method"@,
        "org.freedesktop.DBus.ListActivatableNames"@,
    ]
}

/// The arguments asking the shell to check for extension updates.
pub open spec fn gnome_check_args() -> Seq<Seq<char>> {
    seq![
        "call"@,
        "--session"@,
        "--dest"@,
        "org.gnome.Shell.Extensions"@,
        "--object-path"@,
        "/org/gnome/Shell/Extensions"@,
        "--method"@,
        "org.gnome.Shell.Extensions.CheckForUpdates"@,
    ]
}

/// The probe command whose captured output lists the activatable D-Bus
/// names. In `Dry` mode no command is handed out: in `Simulate` no process
/// is ever spawned, the probe included.
pub fn gnome_extensions_probe(ctx: &ExecutionContext) -> (r: Result<
    Option<CommandDesc>,
    StepError,
>)
    ensures
        resolved(ctx.env, "gdbus"@) is None ==> skipped(r, missing_reason("gdbus"@)),
        resolved(ctx.env, "gdbus"@) is Some && !gnome_desktop_ok(ctx.env) ==> skipped(
            r,
            "Desktop doest not appear to be gnome"@,
        ),
        resolved(ctx.env, "gdbus"@) is Some && gnome_desktop_ok(ctx.env) && ctx.run_type
            == RunType::Dry ==> (r matches Ok(oc) && oc is None),
        resolved(ctx.env, "gdbus"@) is Some && gnome_desktop_ok(ctx.env) && ctx.run_type
            == RunType::Wet ==> (r matches Ok(oc) && (oc matches Some(c) && c.program@
            == "gdbus"@ && c.args.deep_view() == gnome_list_args())),
{
    match require(&ctx.env, "gdbus") {
        Probe::Found { .. } => {},
        Probe::Missing { reason } => { return Err(StepError::Skip { reason }) },
    };
    let desktop = env_var(&ctx.env, "XDG_CURRENT_DESKTOP");
    let filtered = match desktop {
        Some(v) => if contains_sub(v.as_str(), "GNOME") {
            Some(v)
        } else {
            None
        },
        None => None,
    };
    match crate::environment::require_option(
        filtered,
        String::from_str("Desktop doest not appear to be gnome"),
    ) {
        Probe::Found { .. } => {},
        Probe::Missing { reason } => { return Err(StepError::Skip { reason }) },
    };
    match ctx.run_type() {
        RunType::Dry => Ok(None),
        RunType::Wet => {
            let mut c = CommandDesc::new(String::from_str("gdbus"));
            c.arg("call");
            c.arg("--session");
            c.arg("--dest");
            c.arg("org.freedesktop.DBus");
            c.arg("--object-path");
            c.arg("/org/freedesktop/DBus");
            c.arg("--method");
            c.arg("org.freedesktop.DBus.ListActivatableNames");
            proof {
                assert(c.args.deep_view() =~= gnome_list_args());
            }
            Ok(Some(c))
        },
    }
}

/// The probe output registers the shell's extensions interface. `None`
/// means no probe was made (`Simulate` mode), which counts as registered so
/// the preview shows the full step.
pub open spec fn gnome_registered(names: Option<&str>) -> bool {
    match names {
        Some(s) => has_substring(s@, "org.gnome.Shell.Extensions"@),
        None => true,
    }
}

/// Ask the GNOME shell to check for extension updates. `dbus_names` is the
/// probe command's captured output (`None`: no probe was made, `Simulate`
/// mode); when the output does not register the extensions interface the
/// step is skipped.
pub fn upgrade_gnome_extensions(
    ctx: &ExecutionContext,
    dbus_names: Option<&str>,
) -> (r: Result<StepPlan, StepError>)
    ensures
        resolved(ctx.env, "gdbus"@) is None ==> skipped(r, missing_reason("gdbus"@)),
        resolved(ctx.env, "gdbus"@) is Some && !gnome_desktop_ok(ctx.env) ==> skipped(
            r,
            "Desktop doest not appear to be gnome"@,
        ),
        resolved(ctx.env, "gdbus"@) is Some && gnome_desktop_ok(ctx.env)
            && !gnome_registered(dbus_names) ==> skipped(
            r,
            "Gnome shell extensions are unregistered in DBus"@,
        ),
        resolved(ctx.env, "gdbus"@) matches Some(g) ==> (gnome_desktop_ok(ctx.env)
            && gnome_registered(dbus_names) ==> single_run(
            r,
            "Gnome Shell extensions"@,
            g,
            gnome_check_args(),
        )),
{
    let gdbus = match require(&ctx.env, "gdbus") {
        Probe::Found { path } => path,
        Probe::Missing { reason } => { return Err(StepError::Skip { reason }) },
    };
    let desktop = env_var(&ctx.env, "XDG_CURRENT_DESKTOP");
    let filtered = match desktop {
        Some(v) => if contains_sub(v.as_str(), "GNOME") {
            Some(v)
        } else {
            None
        },
        None => None,
    };
    match crate::environment::require_option(
        filtered,
        String::from_str("Desktop doest not appear to be gnome"),
    ) {
        Probe::Found { .. } => {},
        Probe::Missing { reason } => { return Err(StepError::Skip { reason }) },
    };
    let registered = match dbus_names {
        Some(names) => contains_sub(names, "org.gnome.Shell.Extensions"),
        None => true,
    };
    if !registered {
        return Err(
            StepError::Skip {
                reason: String::from_str(
                    "Gnome shell extensions are unregistered in DBus",
                ),
            },
        );
    }
    let mut c = CommandDesc::new(gdbus);
    c.arg("call");
    c.arg("--session");
    c.arg("--dest");
    c.arg("org.gnome.Shell.Extensions");
    c.arg("--object-path");
    c.arg("/org/gnome/Shell/Extensions");
    c.arg("--method");
    c.arg("org.gnome.Shell.Extensions.CheckForUpdates");
    proof {
        assert(c.args.deep_view() =~= gnome_check_args());
    }
    Ok(plan_one("Gnome Shell extensions", c))
}

/// The SDKMAN installation root: the `SDKMAN_DIR` variable when set, else
/// `.sdkman` in the user's home.
pub open spec fn sdkman_dir(env: Environment, home: Seq<char>) -> Seq<char> {
    match env_var_of(env.env_vars@, "SDKMAN_DIR"@) {
        Some(v) => v,
        None => home + "/.sdkman"@,
    }
}

/// The init script every SDKMAN sub-command sources.
pub open spec fn sdkman_init_path(env: Environment, home: Seq<char>) -> Seq<char> {
    sdkman_dir(env, home) + "/bin/sdkman-init.sh"@
}

/// The SDKMAN configuration file.
pub open spec fn sdkman_config_file(env: Environment, home: Seq<char>) -> Seq<char> {
    sdkman_dir(env, home) + "/etc/config"@
}

/// The shell text running one `sdk` sub-command after sourcing the init
/// script.
pub open spec fn sdk_script(init: Seq<char>, sub: Seq<char>) -> Seq<char> {
    "source "@ + init + " && sdk "@ + sub
}

/// The configuration enables SDKMAN self-update: the general-section key is
/// present and set to `true` (absent means `false`).
pub open spec fn sdkman_selfupdate_enabled(content: Seq<char>) -> bool {
    ini_general_value(content, "sdkman_selfupdate_feature"@) matches Some(v) && (
    v matches Some(t) && t == "true"@)
}

fn sdk_command(bash: &str, init: &str, sub: &str) -> (c: CommandDesc)
    ensures
        c.program@ == bash@,
        c.args.deep_view() == seq!["-c"@, sdk_script(init@, sub@)],
{
    let mut s = concat_str("source ", init);
    s = concat_str(s.as_str(), " && sdk ");
    s = concat_str(s.as_str(), sub);
    let mut c = CommandDesc::new(bash.to_owned());
    c.arg("-c");
    c.arg(s.as_str());
    proof {
        assert(c.args.deep_view() =~= seq!["-c"@, sdk_script(init@, sub@)]);
    }
    c
}

/// Where the SDKMAN configuration stands, after the same probes the step
/// itself makes: the step's caller reads that file and hands its text to
/// `run_sdkman`.
pub fn sdkman_config_path(ctx: &ExecutionContext) -> (r: Result<String, StepError>)
    ensures
        resolved(ctx.env, "bash"@) is None ==> skipped(r, missing_reason("bash"@)),
        resolved(ctx.env, "bash"@) is Some && !file_exists(
            ctx.env,
            sdkman_init_path(ctx.env, ctx.home_dir@),
        ) ==> skipped(r, path_missing_reason(sdkman_init_path(ctx.env, ctx.home_dir@))),
        resolved(ctx.env, "bash"@) is Some && file_exists(
            ctx.env,
            sdkman_init_path(ctx.env, ctx.home_dir@),
        ) && !file_exists(ctx.env, sdkman_config_file(ctx.env, ctx.home_dir@))
            ==> skipped(
            r,
            path_missing_reason(sdkman_config_file(ctx.env, ctx.home_dir@)),
        ),
        resolved(ctx.env, "bash"@) is Some && file_exists(
            ctx.env,
            sdkman_init_path(ctx.env, ctx.home_dir@),
        ) && file_exists(ctx.env, sdkman_config_file(ctx.env, ctx.home_dir@)) ==> (
        r matches Ok(p) && p@ == sdkman_config_file(ctx.env, ctx.home_dir@)),
{
    match require(&ctx.env, "bash") {
        Probe::Found { .. } => {},
        Probe::Missing { reason } => { return Err(StepError::Skip { reason }) },
    };
    let dir = match env_var(&ctx.env, "SDKMAN_DIR") {
        Some(v) => v,
        None => concat_str(ctx.home_dir.as_str(), "/.sdkman"),
    };
    let init = concat_str(dir.as_str(), "/bin/sdkman-init.sh");
    match require_path(&ctx.env, init.as_str()) {
        Probe::Found { .. } => {},
        Probe::Missing { reason } => { return Err(StepError::Skip { reason }) },
    };
    let cfg = concat_str(dir.as_str(), "/etc/config");
    match require_path(&ctx.env, cfg.as_str()) {
        Probe::Found { .. } => {},
        Probe::Missing { reason } => { return Err(StepError::Skip { reason }) },
    };
    Ok(cfg)
}

/// Self-update (when the configuration enables it), update and upgrade
/// SDKMAN candidates, then flush its caches when cleanup is configured.
/// `config_content` is the text of the SDKMAN configuration file;
/// malformed text is a fatal error, as the step cannot tell what was meant.
pub fn run_sdkman(ctx: &ExecutionContext, config_content: &str) -> (r: Result<
    StepPlan,
    StepError,
>)
    ensures
        resolved(ctx.env, "bash"@) is None ==> skipped(r, missing_reason("bash"@)),
        resolved(ctx.env, "bash"@) is Some && !file_exists(
            ctx.env,
            sdkman_init_path(ctx.env, ctx.home_dir@),
        ) ==> skipped(r, path_missing_reason(sdkman_init_path(ctx.env, ctx.home_dir@))),
        resolved(ctx.env, "bash"@) is Some && file_exists(
            ctx.env,
            sdkman_init_path(ctx.env, ctx.home_dir@),
        ) && !file_exists(ctx.env, sdkman_config_file(ctx.env, ctx.home_dir@))
            ==> skipped(
            r,
            path_missing_reason(sdkman_config_file(ctx.env, ctx.home_dir@)),
        ),
        resolved(ctx.env, "bash"@) is Some && file_exists(
            ctx.env,
            sdkman_init_path(ctx.env, ctx.home_dir@),
        ) && file_exists(ctx.env, sdkman_config_file(ctx.env, ctx.home_dir@))
            && ini_general_value(config_content@, "sdkman_selfupdate_feature"@) is None
            ==> (r matches Err(e) && e is Fatal),
        resolved(ctx.env, "bash"@) matches Some(b) ==> ((file_exists(
            ctx.env,
            sdkman_init_path(ctx.env, ctx.home_dir@),
        ) && file_exists(ctx.env, sdkman_config_file(ctx.env, ctx.home_dir@))
            && ini_general_value(
            config_content@,
            "sdkman_selfupdate_feature"@,
        ) is Some) ==> (r matches Ok(plan) && plan.title@ == "SDKMAN!"@
            && plan.commands@.len() == 2 + (if sdkman_selfupdate_enabled(
            config_content@,
        ) {
            1int
        } else {
            0int
        }) + (if ctx.config.cleanup {
            2int
        } else {
            0int
        }) && (sdkman_selfupdate_enabled(config_content@) ==> cmd_is(
            plan.commands@[0],
            b,
            seq![
                "-c"@,
                sdk_script(sdkman_init_path(ctx.env, ctx.home_dir@), "selfupdate"@),
            ],
            AcceptPolicy::Success,
        )) && cmd_is(
            plan.commands@[if sdkman_selfupdate_enabled(config_content@) {
                1int
            } else {
                0int
            }],
            b,
            seq!["-c"@, sdk_script(sdkman_init_path(ctx.env, ctx.home_dir@), "update"@)],
            AcceptPolicy::Success,
        ) && cmd_is(
            plan.commands@[if sdkman_selfupdate_enabled(config_content@) {
                2int
            } else {
                1int
            }],
            b,
            seq![
                "-c"@,
                sdk_script(sdkman_init_path(ctx.env, ctx.home_dir@), "upgrade"@),
            ],
            AcceptPolicy::Success,
        ) && (ctx.config.cleanup ==> cmd_is(
            plan.commands@[if sdkman_selfupdate_enabled(config_content@) {
                3int
            } else {
                2int
            }],
            b,
            seq![
                "-c"@,
                sdk_script(sdkman_init_path(ctx.env, ctx.home_dir@), "flush archives"@),
            ],
            AcceptPolicy::Success,
        )) && (ctx.config.cleanup ==> cmd_is(
            plan.commands@[if sdkman_selfupdate_enabled(config_content@) {
                4int
            } else {
                3int
            }],
            b,
            seq![
                "-c"@,
                sdk_script(sdkman_init_path(ctx.env, ctx.home_dir@), "flush temp"@),
            ],
            AcceptPolicy::Success,
        )))),
{
    let bash = match require(&ctx.env, "bash") {
        Probe::Found { path } => path,
        Probe::Missing { reason } => { return Err(StepError::Skip { reason }) },
    };
    let dir = match env_var(&ctx.env, "SDKMAN_DIR") {
        Some(v) => v,
        None => concat_str(ctx.home_dir.as_str(), "/.sdkman"),
    };
    let init = concat_str(dir.as_str(), "/bin/sdkman-init.sh");
    match require_path(&ctx.env, init.as_str()) {
        Probe::Found { .. } => {},
        Probe::Missing { reason } => { return Err(StepError::Skip { reason }) },
    };
    let cfg = concat_str(dir.as_str(), "/etc/config");
    match require_path(&ctx.env, cfg.as_str()) {
        Probe::Found { .. } => {},
        Probe::Missing { reason } => { return Err(StepError::Skip { reason }) },
    };
    let looked_up = match ini_general_lookup(config_content, "sdkman_selfupdate_feature")
        {
        Ok(v) => v,
        Err(message) => { return Err(StepError::Fatal { message }) },
    };
    let selfupdate = match &looked_up {
        Some(s) => str_eq(s.as_str(), "true"),
        None => false,
    };
    let mut commands: Vec<PlannedCommand> = Vec::new();
    if selfupdate {
        commands.push(planned(sdk_command(bash.as_str(), init.as_str(), "selfupdate")));
    }
    commands.push(planned(sdk_command(bash.as_str(), init.as_str(), "update")));
    commands.push(planned(sdk_command(bash.as_str(), init.as_str(), "upgrade")));
    if ctx.config.cleanup {
        commands.push(
            planned(sdk_command(bash.as_str(), init.as_str(), "flush archives")),
        );
        commands.push(planned(sdk_command(bash.as_str(), init.as_str(), "flush temp")));
    }
    Ok(StepPlan { title: String::from_str("SDKMAN!"), commands })
}

} // verus!

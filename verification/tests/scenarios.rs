use upkeep::command::StepPlan;
use upkeep::context::Config;
use upkeep::context::ExecutionContext;
use upkeep::environment::Arch;
use upkeep::environment::Environment;
use upkeep::environment::ExeEntry;
use upkeep::environment::PathEntry;
use upkeep::executor::advance;
use upkeep::executor::run_step;
use upkeep::executor::Directive;
use upkeep::mode::RunType;
use upkeep::outcome::ExecutionOutcome;
use upkeep::outcome::StepError;
use upkeep::executor::ReportSink;
use upkeep::steps::guix_pull_probe;
use upkeep::steps::run_asdf;
use upkeep::steps::run_guix;
use upkeep::steps::run_tldr;
use upkeep::steps::BrewVariant;

fn env_with_bins(bins: &[&str], files: &[&str]) -> Environment {
    Environment {
        path_entries: vec![PathEntry {
            dir: "/usr/bin".to_string(),
            entries: bins
                .iter()
                .map(|n| ExeEntry {
                    name: n.to_string(),
                    full_path: format!("/usr/bin/{}", n),
                })
                .collect(),
        }],
        files: files.iter().map(|f| f.to_string()).collect(),
        env_vars: vec![],
        arch: Arch::X64,
        macos: false,
        nixos: false,
    }
}

fn ctx_with(env: Environment, mode: RunType) -> ExecutionContext {
    ExecutionContext::new(
        mode,
        "/home/user".to_string(),
        Config {
            bashit_branch: "master".to_string(),
            cleanup: false,
            brew_autoremove: false,
            brew_cask_greedy: false,
            yes_pkgin: false,
        },
        env,
    )
}

fn drive_to_end(plan: &StepPlan, mode: RunType, exit_codes: &[Option<i32>]) -> (Result<(), StepError>, ReportSink, usize) {
    let mut sink = ReportSink::new();
    let mut outcomes: Vec<ExecutionOutcome> = vec![];
    let mut spawned = 0usize;
    loop {
        match run_step(mode, plan, &outcomes, &mut sink) {
            Directive::Dispatch { index } => {
                // Here a real driver would spawn plan.commands[index]; the
                // scenario feeds the scripted exit code instead.
                outcomes.push(ExecutionOutcome::Completed { code: exit_codes[index] });
                spawned += 1;
            },
            Directive::Finished { outcome } => return (outcome, sink, spawned),
        }
    }
}

#[test]
fn guix_absent_skips_without_spawning() {
    let ctx = ctx_with(env_with_bins(&[], &[]), RunType::Wet);
    match guix_pull_probe(&ctx) {
        Err(StepError::Skip { reason }) => assert_eq!(reason, "\"guix\" not found"),
        other => panic!("unexpected: {:?}", other),
    }
    match run_guix(&ctx, Some(false)) {
        Err(StepError::Skip { reason }) => assert_eq!(reason, "\"guix\" not found"),
        other => panic!("unexpected: {:?}", other),
    }
}

#[test]
fn guix_failed_pull_skips_the_upgrade() {
    let ctx = ctx_with(env_with_bins(&["guix"], &[]), RunType::Wet);
    match run_guix(&ctx, Some(false)) {
        Err(StepError::Skip { reason }) => assert_eq!(reason, "Guix Pull Failed, Skipping"),
        other => panic!("unexpected: {:?}", other),
    }
    let plan = run_guix(&ctx, Some(true)).unwrap();
    assert_eq!(plan.title, "Guix");
    assert_eq!(plan.commands[0].cmd.program, "/usr/bin/guix");
    assert_eq!(plan.commands[0].cmd.args, vec!["package".to_string(), "-u".to_string()]);
}

#[test]
fn guix_in_simulate_gets_no_pull_probe_and_previews_the_upgrade() {
    let ctx = ctx_with(env_with_bins(&["guix"], &[]), RunType::Dry);
    assert!(guix_pull_probe(&ctx).unwrap().is_none());
    let plan = run_guix(&ctx, None).unwrap();
    let (outcome, sink, spawned) = drive_to_end(&plan, RunType::Dry, &[]);
    assert!(outcome.is_ok());
    assert_eq!(spawned, 0);
    assert_eq!(sink.lines.len(), 2);
}

#[test]
fn asdf_code_42_still_updates_plugins() {
    let ctx = ctx_with(env_with_bins(&["asdf"], &[]), RunType::Wet);
    let plan = run_asdf(&ctx).unwrap();
    // The update sub-command exits with the special-cased code 42.
    let d = advance(&plan, &vec![ExecutionOutcome::Completed { code: Some(42) }]);
    assert!(matches!(d, Directive::Dispatch { index: 1 }));
    let (outcome, _, spawned) = drive_to_end(&plan, RunType::Wet, &[Some(42), Some(0)]);
    assert!(outcome.is_ok());
    assert_eq!(spawned, 2);
}

#[test]
fn asdf_other_nonzero_codes_still_fail() {
    let ctx = ctx_with(env_with_bins(&["asdf"], &[]), RunType::Wet);
    let plan = run_asdf(&ctx).unwrap();
    let (outcome, _, spawned) = drive_to_end(&plan, RunType::Wet, &[Some(1), Some(0)]);
    assert!(matches!(outcome, Err(StepError::ProcessFailed { code: Some(1) })));
    assert_eq!(spawned, 1);
}

#[test]
fn simulate_mode_spawns_nothing_and_previews_each_sub_command() {
    let ctx = ctx_with(env_with_bins(&["tldr"], &[]), RunType::Dry);
    let plan = run_tldr(&ctx).unwrap();
    let (outcome, sink, spawned) = drive_to_end(&plan, RunType::Dry, &[]);
    assert!(outcome.is_ok());
    assert_eq!(spawned, 0);
    assert_eq!(
        sink.lines,
        vec![
            "TLDR".to_string(),
            "Dry running: /usr/bin/tldr --update".to_string(),
        ]
    );
}

#[test]
fn both_brew_roots_present_disambiguates_the_titles() {
    let env = env_with_bins(&[], &["/usr/local/bin/brew", "/opt/homebrew/bin/brew"]);
    assert_eq!(BrewVariant::MacArm.step_title(&env), "Brew (ARM)");
    assert_eq!(BrewVariant::MacIntel.step_title(&env), "Brew (Intel)");
    let only_arm = env_with_bins(&[], &["/opt/homebrew/bin/brew"]);
    assert_eq!(BrewVariant::MacArm.step_title(&only_arm), "Brew");
}

#[test]
fn variant_resolution_is_deterministic() {
    let env = env_with_bins(&[], &["/usr/local/bin/brew", "/opt/homebrew/bin/brew"]);
    let first = BrewVariant::MacIntel.step_title(&env);
    let second = BrewVariant::MacIntel.step_title(&env);
    assert_eq!(first, second);
    let c1 = BrewVariant::MacIntel.execute(&env);
    let c2 = BrewVariant::MacIntel.execute(&env);
    assert_eq!(c1.program, c2.program);
    assert_eq!(c1.args, c2.args);
}

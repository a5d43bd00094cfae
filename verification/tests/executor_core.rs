use upkeep::command::AcceptPolicy;
use upkeep::command::CommandDesc;
use upkeep::command::PlannedCommand;
use upkeep::command::StepPlan;
use upkeep::executor::accepts;
use upkeep::executor::advance;
use upkeep::executor::check_run;
use upkeep::executor::run_step;
use upkeep::executor::simulate;
use upkeep::executor::Directive;
use upkeep::executor::ReportSink;
use upkeep::mode::RunType;
use upkeep::outcome::ExecutionOutcome;
use upkeep::outcome::StepError;

fn cmd(program: &str, args: &[&str]) -> CommandDesc {
    let mut c = CommandDesc::new(program.to_string());
    for a in args {
        c.arg(a);
    }
    c
}

fn plain(program: &str, args: &[&str]) -> PlannedCommand {
    PlannedCommand { cmd: cmd(program, args), accept: AcceptPolicy::Success }
}

#[test]
fn check_run_exit_zero_is_success() {
    let r = check_run(
        &AcceptPolicy::Success,
        &ExecutionOutcome::Completed { code: Some(0) },
    );
    assert!(r.is_ok());
}

#[test]
fn check_run_nonzero_is_process_failure() {
    let r = check_run(
        &AcceptPolicy::Success,
        &ExecutionOutcome::Completed { code: Some(7) },
    );
    assert!(matches!(r, Err(StepError::ProcessFailed { code: Some(7) })));
}

#[test]
fn check_run_signal_exit_is_process_failure() {
    let r = check_run(&AcceptPolicy::Success, &ExecutionOutcome::Completed { code: None });
    assert!(matches!(r, Err(StepError::ProcessFailed { code: None })));
}

#[test]
fn check_run_simulated_is_success() {
    let r = check_run(&AcceptPolicy::Success, &ExecutionOutcome::Simulated);
    assert!(r.is_ok());
}

#[test]
fn check_run_spawn_failure_is_reported() {
    let r = check_run(
        &AcceptPolicy::Success,
        &ExecutionOutcome::SpawnFailed { message: "no such file".to_string() },
    );
    match r {
        Err(StepError::SpawnFailed { message }) => assert_eq!(message, "no such file"),
        other => panic!("unexpected: {:?}", other),
    }
}

#[test]
fn custom_code_suppresses_exactly_that_code() {
    let policy = AcceptPolicy::SuccessOr(42);
    assert!(accepts(&policy, &Some(0)));
    assert!(accepts(&policy, &Some(42)));
    assert!(!accepts(&policy, &Some(41)));
    assert!(!accepts(&policy, &Some(43)));
    assert!(!accepts(&policy, &Some(-42)));
    assert!(!accepts(&policy, &None));
    let r = check_run(&policy, &ExecutionOutcome::Completed { code: Some(42) });
    assert!(r.is_ok());
    let r = check_run(&policy, &ExecutionOutcome::Completed { code: Some(43) });
    assert!(matches!(r, Err(StepError::ProcessFailed { code: Some(43) })));
}

#[test]
fn advance_walks_the_plan_in_order() {
    let plan = StepPlan {
        title: "demo".to_string(),
        commands: vec![plain("a", &[]), plain("b", &[])],
    };
    let d = advance(&plan, &vec![]);
    assert!(matches!(d, Directive::Dispatch { index: 0 }));
    let d = advance(&plan, &vec![ExecutionOutcome::Completed { code: Some(0) }]);
    assert!(matches!(d, Directive::Dispatch { index: 1 }));
    let d = advance(
        &plan,
        &vec![
            ExecutionOutcome::Completed { code: Some(0) },
            ExecutionOutcome::Completed { code: Some(0) },
        ],
    );
    assert!(matches!(d, Directive::Finished { outcome: Ok(()) }));
}

#[test]
fn advance_stops_at_the_first_failure() {
    let plan = StepPlan {
        title: "demo".to_string(),
        commands: vec![plain("a", &[]), plain("b", &[])],
    };
    let d = advance(&plan, &vec![ExecutionOutcome::Completed { code: Some(2) }]);
    match d {
        Directive::Finished { outcome: Err(StepError::ProcessFailed { code }) } => {
            assert_eq!(code, Some(2));
        },
        other => panic!("unexpected: {:?}", other),
    }
}

#[test]
fn simulate_previews_every_sub_command() {
    let plan = StepPlan {
        title: "demo".to_string(),
        commands: vec![plain("tool", &["update"]), plain("tool", &["upgrade", "--all"])],
    };
    let mut sink = ReportSink::new();
    let r = simulate(&plan, &mut sink);
    assert!(r.is_ok());
    assert_eq!(
        sink.lines,
        vec![
            "demo".to_string(),
            "Dry running: tool update".to_string(),
            "Dry running: tool upgrade --all".to_string(),
        ]
    );
}

#[test]
fn dry_mode_never_dispatches() {
    let plan = StepPlan {
        title: "demo".to_string(),
        commands: vec![plain("tool", &["update"])],
    };
    let mut sink = ReportSink::new();
    let d = run_step(RunType::Dry, &plan, &vec![], &mut sink);
    assert!(matches!(d, Directive::Finished { outcome: Ok(()) }));
    assert_eq!(sink.lines.len(), 2);
}

#[test]
fn wet_mode_announces_once_then_dispatches() {
    let plan = StepPlan {
        title: "demo".to_string(),
        commands: vec![plain("tool", &["update"])],
    };
    let mut sink = ReportSink::new();
    let d = run_step(RunType::Wet, &plan, &vec![], &mut sink);
    assert!(matches!(d, Directive::Dispatch { index: 0 }));
    assert_eq!(sink.lines, vec!["demo".to_string()]);
    let outcomes = vec![ExecutionOutcome::Completed { code: Some(0) }];
    let d = run_step(RunType::Wet, &plan, &outcomes, &mut sink);
    assert!(matches!(d, Directive::Finished { outcome: Ok(()) }));
    assert_eq!(sink.lines.len(), 1);
}

#[test]
fn error_kind_labels() {
    assert_eq!(StepError::Skip { reason: "x".to_string() }.kind_label(), "skipped");
    assert_eq!(StepError::ProcessFailed { code: Some(1) }.kind_label(), "process failed");
    assert_eq!(
        StepError::SpawnFailed { message: "m".to_string() }.kind_label(),
        "spawn failed"
    );
    assert_eq!(StepError::Fatal { message: "m".to_string() }.kind_label(), "fatal");
}

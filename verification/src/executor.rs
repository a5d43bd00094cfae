//! The executor: previewing plans in `Dry` mode, classifying process
//! outcomes, and deciding, sub-command by sub-command, what to do next in
//! `Wet` mode.
//!
//! The executor never spawns anything itself. In `Dry` mode it writes one
//! preview line per sub-command to the reporting sink and finishes at once.
//! In `Wet` mode it hands out a `Directive`: either the index of the next
//! sub-command to spawn, or the step's final outcome. The surrounding
//! (unverified) driver performs the spawn and feeds the observed outcome
//! back in, so every decision about control flow stays verified.

use vstd::prelude::*;
use crate::command::AcceptPolicy;
use crate::command::CommandDesc;
use crate::command::PlannedCommand;
use crate::command::StepPlan;
use crate::outcome::ExecutionOutcome;
use crate::outcome::StepError;
use crate::mode::RunType;
use crate::strutil::concat_str;

verus! {

/// The append-only reporting sink: step titles and, in `Dry` mode, one
/// preview line per sub-command.
#[derive(Debug)]
pub struct ReportSink {
    pub lines: Vec<String>,
}

impl ReportSink {
    /// The recorded lines, as character sequences.
    pub open spec fn entries(self) -> Seq<Seq<char>> {
        self.lines.deep_view()
    }

    /// An empty sink.
    pub fn new() -> (s: ReportSink)
        ensures
            s.entries() == Seq::<Seq<char>>::empty(),
    {
        let s = ReportSink { lines: Vec::new() };
        proof {
            assert(s.entries() =~= Seq::<Seq<char>>::empty());
        }
        s
    }

    /// Append one line; nothing already recorded changes.
    pub fn append(&mut self, line: String)
        ensures
            final(self).entries() == old(self).entries().push(line@),
    {
        self.lines.push(line);
        proof {
            assert(final(self).entries() =~= old(self).entries().push(
                final(self).lines@[final(self).lines@.len() - 1]@,
            ));
        }
    }
}

/// The exit codes the policy accepts: code 0 always, and the policy's named
/// special-case code if it has one.
pub open spec fn accepts_code(policy: AcceptPolicy, code: Option<i32>) -> bool {
    code == Some(0i32) || (policy matches AcceptPolicy::SuccessOr(c) && code == Some(c))
}

/// Whether one executor invocation counts as success for control flow.
pub open spec fn outcome_passes(policy: AcceptPolicy, o: ExecutionOutcome) -> bool {
    match o {
        ExecutionOutcome::Simulated => true,
        ExecutionOutcome::Completed { code } => accepts_code(policy, code),
        ExecutionOutcome::SpawnFailed { .. } => false,
    }
}

/// The step error a non-passing outcome is reported as.
pub open spec fn classify_failure(o: ExecutionOutcome) -> StepError {
    match o {
        ExecutionOutcome::Completed { code } => StepError::ProcessFailed { code },
        ExecutionOutcome::SpawnFailed { message } => StepError::SpawnFailed { message },
        ExecutionOutcome::Simulated => arbitrary(),
    }
}

/// Decide whether `code` is acceptable under `policy`.
pub fn accepts(policy: &AcceptPolicy, code: &Option<i32>) -> (r: bool)
    ensures
        r == accepts_code(*policy, *code),
{
    match code {
        Some(c) => {
            if *c == 0 {
                true
            } else {
                match policy {
                    AcceptPolicy::SuccessOr(a) => *c == *a,
                    AcceptPolicy::Success => false,
                }
            }
        },
        None => false,
    }
}

/// Convert one outcome into "succeed or propagate": a passing outcome
/// (including `Simulated`) yields `Ok`, a completed process with an
/// unacceptable exit code yields `ProcessFailed`, and a process that could
/// not be started yields `SpawnFailed`.
pub fn check_run(policy: &AcceptPolicy, outcome: &ExecutionOutcome) -> (r: Result<
    (),
    StepError,
>)
    ensures
        outcome_passes(*policy, *outcome) ==> r is Ok,
        !outcome_passes(*policy, *outcome) ==> (r matches Err(e) && e == classify_failure(
            *outcome,
        )),
{
    match outcome {
        ExecutionOutcome::Simulated => Ok(()),
        ExecutionOutcome::Completed { code } => {
            if accepts(policy, code) {
                Ok(())
            } else {
                Err(StepError::ProcessFailed { code: *code })
            }
        },
        ExecutionOutcome::SpawnFailed { message } => Err(
            StepError::SpawnFailed { message: message.clone() },
        ),
    }
}

/// A policy with a named special-case code accepts exactly exit code 0 and
/// that code, and suppresses a failure for no other exit status.
pub proof fn lemma_accept_policy_exact(a: i32, code: Option<i32>)
    ensures
        accepts_code(AcceptPolicy::SuccessOr(a), code) <==> (code == Some(0i32) || code
            == Some(a)),
        accepts_code(AcceptPolicy::Success, code) <==> code == Some(0i32),
{
}

/// What the wet-mode driver must do next: spawn the sub-command at `index`,
/// or stop with the step's final outcome.
#[derive(Debug)]
pub enum Directive {
    Dispatch { index: usize },
    Finished { outcome: Result<(), StepError> },
}

/// The first `k` observed outcomes all pass their planned policies.
pub open spec fn all_pass_upto(
    cmds: Seq<PlannedCommand>,
    outs: Seq<ExecutionOutcome>,
    k: int,
) -> bool {
    forall|t: int| 0 <= t < k ==> outcome_passes(cmds[t].accept, outs[t])
}

/// The directive `d` is the right continuation for a plan of which `outs`
/// records the outcomes observed so far: the next unspawned sub-command when
/// everything so far passed, `Ok` when the whole plan passed, and the
/// classification of the first non-passing outcome otherwise — a failure
/// partway stops the remaining sub-commands.
pub open spec fn directive_for(
    cmds: Seq<PlannedCommand>,
    outs: Seq<ExecutionOutcome>,
    d: Directive,
) -> bool {
    &&& (all_pass_upto(cmds, outs, outs.len() as int) && outs.len() < cmds.len() ==> (
    d matches Directive::Dispatch { index } && index == outs.len()))
    &&& (all_pass_upto(cmds, outs, outs.len() as int) && outs.len() == cmds.len() ==> (
    d matches Directive::Finished { outcome } && outcome is Ok))
    &&& (!all_pass_upto(cmds, outs, outs.len() as int) ==> (d matches Directive::Finished {
        outcome,
    } && outcome matches Err(e) && (exists|j: int|
        0 <= j < outs.len() && #[trigger] all_pass_upto(cmds, outs, j)
            && !outcome_passes(cmds[j].accept, outs[j]) && e == classify_failure(
            outs[j],
        ))))
}

/// Decide the wet-mode continuation from the outcomes observed so far.
pub fn advance(plan: &StepPlan, outcomes: &Vec<ExecutionOutcome>) -> (d: Directive)
    requires
        outcomes@.len() <= plan.commands@.len(),
    ensures
        directive_for(plan.commands@, outcomes@, d),
{
    let n = outcomes.len();
    let mut i: usize = 0;
    while i < n
        invariant
            n == outcomes@.len(),
            n <= plan.commands@.len(),
            i <= n,
            all_pass_upto(plan.commands@, outcomes@, i as int),
        decreases n - i,
    {
        match check_run(&plan.commands[i].accept, &outcomes[i]) {
            Ok(_) => {
                proof {
                    assert(all_pass_upto(plan.commands@, outcomes@, i + 1));
                }
                i += 1;
            },
            Err(e) => {
                proof {
                    assert(all_pass_upto(plan.commands@, outcomes@, n as int)
                        ==> outcome_passes(
                        plan.commands@[i as int].accept,
                        outcomes@[i as int],
                    ));
                    assert(0 <= i < outcomes@.len() && all_pass_upto(
                        plan.commands@,
                        outcomes@,
                        i as int,
                    ) && !outcome_passes(plan.commands@[i as int].accept, outcomes@[
                        i as int]) && e == classify_failure(outcomes@[i as int]));
                }
                return Directive::Finished { outcome: Err(e) };
            },
        }
    }
    if n < plan.commands.len() {
        Directive::Dispatch { index: n }
    } else {
        Directive::Finished { outcome: Ok(()) }
    }
}

/// One space-separated argument tail of a preview line.
pub open spec fn args_tail(args: Seq<Seq<char>>) -> Seq<char>
    decreases args.len(),
{
    if args.len() == 0 {
        Seq::empty()
    } else {
        seq![' '] + args[0] + args_tail(args.skip(1))
    }
}

/// The preview line announcing what would run.
pub open spec fn preview_of(prog: Seq<char>, args: Seq<Seq<char>>) -> Seq<char> {
    "Dry running: "@ + prog + args_tail(args)
}

proof fn lemma_args_tail_push(args: Seq<Seq<char>>, x: Seq<char>)
    ensures
        args_tail(args.push(x)) == args_tail(args) + seq![' '] + x,
    decreases args.len(),
{
    if args.len() == 0 {
        assert(args.push(x).skip(1) =~= args);
        assert(args.push(x)[0] == x);
        assert(args_tail(args.push(x)) =~= args_tail(args) + seq![' '] + x);
    } else {
        lemma_args_tail_push(args.skip(1), x);
        assert(args.push(x).skip(1) =~= args.skip(1).push(x));
        assert(args.push(x)[0] == args[0]);
        assert(args_tail(args.push(x)) == seq![' '] + args[0] + args_tail(
            args.skip(1).push(x),
        ));
        assert(args_tail(args) == seq![' '] + args[0] + args_tail(args.skip(1)));
        assert(seq![' '] + args[0] + (args_tail(args.skip(1)) + seq![' '] + x) =~= (seq![
            ' ',
        ] + args[0] + args_tail(args.skip(1))) + seq![' '] + x);
    }
}

/// Build the preview line for one command.
pub fn preview_line(c: &CommandDesc) -> (r: String)
    ensures
        r@ == preview_of(c.program@, c.args.deep_view()),
{
    let mut line = concat_str("Dry running: ", c.program.as_str());
    proof {
        assert(c.args.deep_view().take(0) =~= Seq::<Seq<char>>::empty());
        assert(line@ =~= preview_of(c.program@, c.args.deep_view().take(0)));
    }
    let n = c.args.len();
    let mut k: usize = 0;
    while k < n
        invariant
            n == c.args@.len(),
            k <= n,
            line@ == preview_of(c.program@, c.args.deep_view().take(k as int)),
        decreases n - k,
    {
        let with_space = concat_str(line.as_str(), " ");
        line = concat_str(with_space.as_str(), c.args[k].as_str());
        proof {
            lemma_args_tail_push(c.args.deep_view().take(k as int), c.args@[k as int]@);
            assert(c.args.deep_view().take(k + 1) =~= c.args.deep_view().take(
                k as int,
            ).push(c.args@[k as int]@));
            assert(" "@ =~= seq![' ']) by {
                reveal_strlit(" ");
            }
            assert(line@ =~= preview_of(c.program@, c.args.deep_view().take(k + 1)));
        }
        k += 1;
    }
    proof {
        assert(c.args.deep_view().take(n as int) =~= c.args.deep_view());
    }
    line
}

/// The preview lines of a whole plan, in order.
pub open spec fn preview_lines_of(cmds: Seq<PlannedCommand>) -> Seq<Seq<char>>
    decreases cmds.len(),
{
    if cmds.len() == 0 {
        Seq::empty()
    } else {
        seq![preview_of(cmds[0].cmd.program@, cmds[0].cmd.args.deep_view())]
            + preview_lines_of(cmds.skip(1))
    }
}

proof fn lemma_preview_lines_push(cmds: Seq<PlannedCommand>, x: PlannedCommand)
    ensures
        preview_lines_of(cmds.push(x)) == preview_lines_of(cmds) + seq![
            preview_of(x.cmd.program@, x.cmd.args.deep_view()),
        ],
    decreases cmds.len(),
{
    if cmds.len() == 0 {
        assert(cmds.push(x).skip(1) =~= cmds);
        assert(cmds.push(x)[0] == x);
        assert(preview_lines_of(cmds.push(x)) =~= preview_lines_of(cmds) + seq![
            preview_of(x.cmd.program@, x.cmd.args.deep_view()),
        ]);
    } else {
        lemma_preview_lines_push(cmds.skip(1), x);
        assert(cmds.push(x).skip(1) =~= cmds.skip(1).push(x));
        assert(cmds.push(x)[0] == cmds[0]);
        assert(preview_lines_of(cmds.push(x)) == seq![
            preview_of(cmds[0].cmd.program@, cmds[0].cmd.args.deep_view()),
        ] + preview_lines_of(cmds.skip(1).push(x)));
        assert(preview_lines_of(cmds) == seq![
            preview_of(cmds[0].cmd.program@, cmds[0].cmd.args.deep_view()),
        ] + preview_lines_of(cmds.skip(1)));
        assert(seq![preview_of(cmds[0].cmd.program@, cmds[0].cmd.args.deep_view())] + (
        preview_lines_of(cmds.skip(1)) + seq![
            preview_of(x.cmd.program@, x.cmd.args.deep_view()),
        ]) =~= (seq![preview_of(cmds[0].cmd.program@, cmds[0].cmd.args.deep_view())]
            + preview_lines_of(cmds.skip(1))) + seq![
            preview_of(x.cmd.program@, x.cmd.args.deep_view()),
        ]);
    }
}

/// Record a whole plan in the sink without spawning anything: the title,
/// then one preview line per sub-command. Always succeeds.
pub fn simulate(plan: &StepPlan, sink: &mut ReportSink) -> (r: Result<(), StepError>)
    ensures
        r is Ok,
        final(sink).entries() == old(sink).entries().push(plan.title@)
            + preview_lines_of(plan.commands@),
{
    sink.append(plan.title.clone());
    proof {
        assert(plan.commands@.take(0) =~= Seq::<PlannedCommand>::empty());
        assert(sink.entries() =~= old(sink).entries().push(plan.title@)
            + preview_lines_of(plan.commands@.take(0)));
    }
    let n = plan.commands.len();
    let mut k: usize = 0;
    while k < n
        invariant
            n == plan.commands@.len(),
            k <= n,
            sink.entries() == old(sink).entries().push(plan.title@) + preview_lines_of(
                plan.commands@.take(k as int),
            ),
        decreases n - k,
    {
        let line = preview_line(&plan.commands[k].cmd);
        sink.append(line);
        proof {
            lemma_preview_lines_push(
                plan.commands@.take(k as int),
                plan.commands@[k as int],
            );
            assert(plan.commands@.take(k + 1) =~= plan.commands@.take(k as int).push(
                plan.commands@[k as int],
            ));
            assert(sink.entries() =~= old(sink).entries().push(plan.title@)
                + preview_lines_of(plan.commands@.take(k + 1)));
        }
        k += 1;
    }
    proof {
        assert(plan.commands@.take(n as int) =~= plan.commands@);
    }
    Ok(())
}

/// Run one step as far as the core can: in `Dry` mode the whole step is
/// previewed and finishes successfully — no directive ever asks for a spawn,
/// so no process is spawned and nothing outside the sink changes. In `Wet`
/// mode the title is announced once (before the first outcome exists) and
/// the continuation is decided from the outcomes observed so far.
pub fn run_step(
    mode: RunType,
    plan: &StepPlan,
    outcomes: &Vec<ExecutionOutcome>,
    sink: &mut ReportSink,
) -> (d: Directive)
    requires
        outcomes@.len() <= plan.commands@.len(),
        mode == RunType::Dry ==> outcomes@.len() == 0,
    ensures
        mode == RunType::Dry ==> (d matches Directive::Finished { outcome }
            && outcome is Ok),
        mode == RunType::Dry ==> final(sink).entries() == old(sink).entries().push(
            plan.title@,
        ) + preview_lines_of(plan.commands@),
        mode == RunType::Wet ==> directive_for(plan.commands@, outcomes@, d),
        mode == RunType::Wet && outcomes@.len() == 0 ==> final(sink).entries() == old(
            sink,
        ).entries().push(plan.title@),
        mode == RunType::Wet && outcomes@.len() > 0 ==> final(sink).entries() == old(
            sink,
        ).entries(),
{
    match mode {
        RunType::Dry => {
            let r = simulate(plan, sink);
            Directive::Finished { outcome: r }
        },
        RunType::Wet => {
            if outcomes.len() == 0 {
                sink.append(plan.title.clone());
            }
            advance(plan, outcomes)
        },
    }
}

} // verus!

//! Command descriptions: pure data naming a binary and its arguments,
//! together with the acceptance policy a step attaches to each sub-command.

use vstd::prelude::*;

verus! {

/// An invocable command: a binary (name or resolved path) and its ordered
/// argument list. Building one has no side effects.
#[derive(Debug)]
pub struct CommandDesc {
    pub program: String,
    pub args: Vec<String>,
}

impl CommandDesc {
    /// Start a command with no arguments yet.
    pub fn new(program: String) -> (c: CommandDesc)
        ensures
            c.program == program,
            c.args.deep_view() == Seq::<Seq<char>>::empty(),
    {
        let c = CommandDesc { program, args: Vec::new() };
        proof {
            assert(c.args.deep_view() =~= Seq::<Seq<char>>::empty());
        }
        c
    }

    /// Append one argument.
    pub fn arg(&mut self, a: &str)
        ensures
            final(self).program == old(self).program,
            final(self).args.deep_view() == old(self).args.deep_view().push(a@),
    {
        self.args.push(a.to_owned());
        proof {
            assert(final(self).args.deep_view() =~= old(self).args.deep_view().push(a@));
        }
    }
}

/// Which exit codes count as success for one sub-command.
///
/// `Success` accepts exit code 0 alone. `SuccessOr(c)` additionally accepts
/// the named code `c`: an explicit, documented special case for tools whose
/// update subcommand uses a dedicated nonzero code to mean "nothing to do".
#[derive(Clone, Copy, Debug, PartialEq, Eq, Structural)]
pub enum AcceptPolicy {
    Success,
    SuccessOr(i32),
}

/// One sub-command of a step together with its acceptance policy.
#[derive(Debug)]
pub struct PlannedCommand {
    pub cmd: CommandDesc,
    pub accept: AcceptPolicy,
}

/// Everything a step decided to do: a title for the reporting sink and the
/// ordered sub-commands to issue. A failure partway stops the remaining
/// sub-commands but never rolls back ones already executed.
#[derive(Debug)]
pub struct StepPlan {
    pub title: String,
    pub commands: Vec<PlannedCommand>,
}

/// The planned command at index `i` runs `prog` with exactly `args` under
/// policy `acc`.
pub open spec fn cmd_is(
    c: PlannedCommand,
    prog: Seq<char>,
    args: Seq<Seq<char>>,
    acc: AcceptPolicy,
) -> bool {
    &&& c.cmd.program@ == prog
    &&& c.cmd.args.deep_view() == args
    &&& c.accept == acc
}

/// Wrap a finished command with the plain acceptance policy.
pub fn planned(cmd: CommandDesc) -> (p: PlannedCommand)
    ensures
        p.cmd == cmd,
        p.accept == AcceptPolicy::Success,
{
    PlannedCommand { cmd, accept: AcceptPolicy::Success }
}

} // verus!

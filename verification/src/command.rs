//! The command surface: the two runner subcommands and the greeting, and the
//! dispatch from a parsed command to the work it starts. Everything a command
//! decides is returned as a plan; the caller carries out what only it can do
//! (probe coordination servers, wait, talk to the CI provider) and hands the
//! answers back to the plan's session.

use vstd::prelude::*;

use crate::results::ResultSink;
use crate::selector::SelectionInput;
use crate::selector::SelectorSession;
use crate::watchdog;
use crate::watchdog::TimeoutInput;
use crate::watchdog::WatchdogPlan;

verus! {

/// The runner-management subcommands: pick a runner for a workload, or check
/// later that the picked runner showed up.
#[derive(Debug, Clone)]
pub enum RunnerCommand {
    Select(SelectionInput),
    Timeout(TimeoutInput),
}

/// The whole command surface.
#[derive(Debug, Clone)]
pub enum Command {
    Hello,
    Runner(RunnerCommand),
}

/// What a runner subcommand starts: a selection session to drive, or a
/// prepared watchdog check.
pub enum RunnerPlan {
    Select(SelectorSession),
    Timeout(WatchdogPlan),
}

/// What a command starts.
pub enum CommandPlan {
    /// The greeting: the caller just says hello.
    Greet,
    Runner(RunnerPlan),
}

/// What `RunnerCommand::run` promises of the plan it returns.
pub open spec fn runner_run_post(
    cmd: RunnerCommand,
    self_hosted_disabled: bool,
    r: RunnerPlan,
    old_sink: Seq<Seq<char>>,
    new_sink: Seq<Seq<char>>,
) -> bool {
    match cmd {
        RunnerCommand::Select(input) => r matches RunnerPlan::Select(s) && s.begin_post(
            input,
            self_hosted_disabled,
            old_sink,
            new_sink,
        ),
        RunnerCommand::Timeout(input) => r matches RunnerPlan::Timeout(p)
            && watchdog::watchdog_plan_post(input, p) && new_sink == old_sink,
    }
}

impl RunnerCommand {
    /// Starts the subcommand's work: a selection session (its workload
    /// identifier already generated and emitted) or a prepared watchdog
    /// check. `self_hosted_disabled` is the operator override read from the
    /// environment by the caller.
    pub fn run(self, self_hosted_disabled: bool, sink: &mut ResultSink) -> (r: RunnerPlan)
        ensures
            runner_run_post(self, self_hosted_disabled, r, old(sink)@, final(sink)@),
    {
        match self {
            RunnerCommand::Select(input) => RunnerPlan::Select(
                SelectorSession::begin(input, self_hosted_disabled, sink),
            ),
            RunnerCommand::Timeout(input) => RunnerPlan::Timeout(watchdog::plan_watchdog(input)),
        }
    }
}

impl Command {
    /// Dispatches the parsed command to the work it starts.
    pub fn run(self, self_hosted_disabled: bool, sink: &mut ResultSink) -> (r: CommandPlan)
        ensures
            match self {
                Command::Hello => r is Greet && final(sink)@ == old(sink)@,
                Command::Runner(sub) => r matches CommandPlan::Runner(p) && runner_run_post(
                    sub,
                    self_hosted_disabled,
                    p,
                    old(sink)@,
                    final(sink)@,
                ),
            },
    {
        match self {
            Command::Hello => CommandPlan::Greet,
            Command::Runner(sub) => CommandPlan::Runner(sub.run(self_hosted_disabled, sink)),
        }
    }
}

} // verus!

//! The three stages of a run, in order: create an archive, prune the
//! repository, synchronise it to the remote target.
//!
//! The orchestrator decides and the caller acts: it asks for the next action,
//! runs or shows the command it names, and records the outcome. The first
//! stage that fails ends the run; no later stage is started.

use vstd::prelude::*;

use crate::command::{
    command_line,
    create_args,
    create_command,
    line_text,
    prune_args,
    prune_command,
    sync_args,
    sync_command,
    texts,
    Invocation,
};
use crate::config::{ConfigError, RunConfig};
use crate::output::{succeeded, CommandOutcome};
use crate::validate::InputError;

verus! {

/// One stage of a run.
#[derive(Clone, Copy, PartialEq, Eq, Structural, Debug)]
pub enum Stage {
    Create,
    Prune,
    Sync,
}

/// Where a run stands.
#[derive(Clone, Copy, PartialEq, Eq, Structural, Debug)]
pub enum Phase {
    /// This stage is the next to run.
    Running(Stage),
    /// Every stage succeeded.
    Done,
    /// A stage failed.
    Failed,
}

/// Why a run failed.
pub enum RunError {
    /// The options could not be resolved.
    Config(ConfigError),
    /// An input path was rejected.
    Input(InputError),
    /// A command could not be started.
    CommandError { command: String, message: String },
    /// A command ran and exited unsuccessfully.
    CommandFailure { command: String, status: Option<i32>, stdout: String, stderr: String },
}

/// What the caller is to do next.
pub enum Action {
    /// Run this command and record its outcome.
    Run(Invocation),
    /// Dry run: show this command, do not run it, and record it as skipped.
    Show(Invocation),
    /// Nothing is left to do.
    Finish,
}

/// The phase that follows `p` when its stage ends well (`ok`) or badly.
pub open spec fn next_phase(p: Phase, ok: bool) -> Phase {
    match p {
        Phase::Running(s) => if !ok {
            Phase::Failed
        } else {
            match s {
                Stage::Create => Phase::Running(Stage::Prune),
                Stage::Prune => Phase::Running(Stage::Sync),
                Stage::Sync => Phase::Done,
            }
        },
        _ => p,
    }
}

/// Whether the next action in phase `p` starts a process.
pub open spec fn spawns(dry_run: bool, p: Phase) -> bool {
    !dry_run && p is Running
}

/// The program of a stage.
pub open spec fn stage_program(s: Stage) -> Seq<char> {
    match s {
        Stage::Sync => "rclone"@,
        _ => "borg"@,
    }
}

/// The arguments of a stage under `config`.
pub open spec fn stage_args(config: RunConfig, s: Stage) -> Seq<Seq<char>> {
    match s {
        Stage::Create => create_args(
            config.repo_path@,
            texts(config.excludes@),
            texts(config.inputs@),
        ),
        Stage::Prune => prune_args(
            config.repo_path@,
            config.keep_daily,
            config.keep_weekly,
            config.keep_monthly,
        ),
        Stage::Sync => sync_args(config.repo_path@, config.sync_dest@),
    }
}

/// Whether `inv` is the command of stage `s` under `config`.
pub open spec fn is_stage_command(inv: Invocation, config: RunConfig, s: Stage) -> bool {
    inv.program@ == stage_program(s) && inv.arg_texts() == stage_args(config, s)
}

/// The command line of stage `s` under `config`.
pub open spec fn stage_line(config: RunConfig, s: Stage) -> Seq<char> {
    line_text(stage_program(s), stage_args(config, s))
}

/// Text logged for a stage that ended well.
pub open spec fn logged_text(o: CommandOutcome) -> Seq<char> {
    match o {
        CommandOutcome::Succeeded { stdout } => stdout@,
        _ => "not running, in dry_run mode"@,
    }
}

/// Whether `e` reports the failed outcome `o` of the command `line`, with
/// everything that the process handed back.
pub open spec fn reports_failure(e: RunError, line: Seq<char>, o: CommandOutcome) -> bool {
    match (e, o) {
        (
            RunError::CommandFailure { command, status, stdout, stderr },
            CommandOutcome::Failed { status: s, stdout: out, stderr: err },
        ) => command@ == line && status == s && stdout@ == out@ && stderr@ == err@,
        (
            RunError::CommandError { command, message },
            CommandOutcome::SpawnFailed { message: m },
        ) => command@ == line && message@ == m@,
        _ => false,
    }
}

/// The phase after stage `s` has ended well.
fn after(s: Stage) -> (r: Phase)
    ensures
        r == next_phase(Phase::Running(s), true),
{
    match s {
        Stage::Create => Phase::Running(Stage::Prune),
        Stage::Prune => Phase::Running(Stage::Sync),
        Stage::Sync => Phase::Done,
    }
}

/// The command of stage `s` under `config`.
pub fn stage_command(config: &RunConfig, s: Stage) -> (r: Invocation)
    ensures
        is_stage_command(r, *config, s),
{
    match s {
        Stage::Create => create_command(config),
        Stage::Prune => prune_command(config),
        Stage::Sync => sync_command(config),
    }
}

/// The state of one run.
pub struct Orchestrator {
    config: RunConfig,
    phase: Phase,
}

impl Orchestrator {
    /// The configuration of the run.
    pub closed spec fn spec_config(&self) -> RunConfig {
        self.config
    }

    /// Where the run stands.
    pub closed spec fn spec_phase(&self) -> Phase {
        self.phase
    }

    /// A run of `config` that has not started: archive creation comes first.
    pub fn new(config: RunConfig) -> (r: Orchestrator)
        ensures
            r.spec_config() == config,
            r.spec_phase() == Phase::Running(Stage::Create),
    {
        Orchestrator { config, phase: Phase::Running(Stage::Create) }
    }

    /// The configuration of the run.
    pub fn config(&self) -> (r: &RunConfig)
        ensures
            *r == self.spec_config(),
    {
        &self.config
    }

    /// Where the run stands.
    pub fn phase(&self) -> (r: Phase)
        ensures
            r == self.spec_phase(),
    {
        self.phase
    }

    /// The command of the stage that is next, run or shown as the dry-run
    /// option says, or `Finish` once the run has ended.
    pub fn next_action(&self) -> (r: Action)
        ensures
            r is Run <==> spawns(self.spec_config().dry_run, self.spec_phase()),
            r is Finish <==> !(self.spec_phase() is Running),
            self.spec_phase() matches Phase::Running(s) ==> match r {
                Action::Run(inv) => is_stage_command(inv, self.spec_config(), s),
                Action::Show(inv) => is_stage_command(inv, self.spec_config(), s),
                Action::Finish => false,
            },
    {
        match self.phase {
            Phase::Running(s) => {
                let inv = stage_command(&self.config, s);
                if self.config.dry_run {
                    Action::Show(inv)
                } else {
                    Action::Run(inv)
                }
            },
            _ => Action::Finish,
        }
    }

    /// Records how the current stage went. A stage that ended well hands back
    /// the text to log and moves the run on; one that did not ends the run
    /// with the error that reports it.
    pub fn record(&mut self, outcome: CommandOutcome) -> (r: Result<String, RunError>)
        requires
            old(self).spec_phase() is Running,
        ensures
            final(self).spec_config() == old(self).spec_config(),
            final(self).spec_phase() == next_phase(old(self).spec_phase(), succeeded(outcome)),
            r is Ok <==> succeeded(outcome),
            r matches Ok(t) ==> t@ == logged_text(outcome),
            old(self).spec_phase() matches Phase::Running(s) ==> (r matches Err(e) ==> reports_failure(
                e,
                stage_line(old(self).spec_config(), s),
                outcome,
            )),
    {
        let s = match self.phase {
            Phase::Running(s) => s,
            // excluded by the precondition
            _ => Stage::Create,
        };
        let inv = stage_command(&self.config, s);
        match outcome {
            CommandOutcome::Succeeded { stdout } => {
                self.phase = after(s);
                Ok(stdout)
            },
            CommandOutcome::Skipped => {
                self.phase = after(s);
                Ok(String::from_str("not running, in dry_run mode"))
            },
            CommandOutcome::Failed { status, stdout, stderr } => {
                self.phase = Phase::Failed;
                Err(RunError::CommandFailure { command: command_line(&inv), status, stdout, stderr })
            },
            CommandOutcome::SpawnFailed { message } => {
                self.phase = Phase::Failed;
                Err(RunError::CommandError { command: command_line(&inv), message })
            },
        }
    }
}

} // verus!

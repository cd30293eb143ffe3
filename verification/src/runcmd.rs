//! The command runner: one command line, a few flags, two ways to run it.
//!
//! [`RunCmd::execute`] is the fail-fast path: it reports an error whenever the
//! command does not finish with exit code zero. [`RunCmd::execute_output`] is
//! the structured path: a non-zero exit code or an interrupted child is data
//! in the returned [`RunCmdOutput`], not an error.

use crate::spawn::{
    print_report, spawn_direct_captured, spawn_direct_streamed, spawn_shell_captured,
    spawn_shell_streamed, utf8_decode, utf8_to_string, SpawnOutcome,
};
use vstd::prelude::*;

verus! {

/// The captured result of one run: the command that was run, the decoded
/// output texts, and the exit code.
///
/// The exit code is the raw code of the wait status as the operating system
/// reports it; on Unix a shell's `exit -1` therefore comes back as `255`,
/// since shells wrap exit values into the `0..=255` range. The sentinel `-1`
/// stands for a child that a signal ended before it had an exit code.
#[derive(Debug)]
pub struct RunCmdOutput {
    pub cmd: String,
    pub stdout: String,
    pub stderr: String,
    pub exitcode: i32,
}

/// The mathematical value of a [`RunCmdOutput`].
pub ghost struct OutputView {
    pub cmd: Seq<char>,
    pub stdout: Seq<char>,
    pub stderr: Seq<char>,
    pub exitcode: int,
}

impl View for RunCmdOutput {
    type V = OutputView;

    open spec fn view(&self) -> OutputView {
        OutputView {
            cmd: self.cmd@,
            stdout: self.stdout@,
            stderr: self.stderr@,
            exitcode: self.exitcode as int,
        }
    }
}

impl Clone for RunCmdOutput {
    fn clone(&self) -> (r: Self)
        ensures
            r@ == self@,
    {
        RunCmdOutput {
            cmd: self.cmd.clone(),
            stdout: self.stdout.clone(),
            stderr: self.stderr.clone(),
            exitcode: self.exitcode,
        }
    }
}

/// Why a run could not produce a usable result.
#[derive(Debug)]
pub enum RunCmdError {
    /// The process could not be started at all: the executable was not found,
    /// permission was denied, or the shell interpreter was unavailable.
    Spawn,
    /// A captured stream was not valid UTF-8; only text output is supported.
    OutputNotText,
    /// The fail-fast path ran the command and it finished with this non-zero
    /// exit code (`-1` when a signal ended the child).
    NonZeroExit(i32),
}

/// A command runner: the command line it was built with, the configuration
/// flags, and its own retained copy of the last captured result.
pub struct RunCmd {
    retval: RunCmdOutput,
    verbose: bool,
    executed: bool,
    shell: bool,
}

/// The mathematical value of a [`RunCmd`]: the retained output and the flags.
pub ghost struct RunCmdView {
    pub output: OutputView,
    pub verbose: bool,
    pub executed: bool,
    pub shell: bool,
}

impl View for RunCmd {
    type V = RunCmdView;

    closed spec fn view(&self) -> RunCmdView {
        RunCmdView {
            output: self.retval@,
            verbose: self.verbose,
            executed: self.executed,
            shell: self.shell,
        }
    }
}

/// The diagnostic text stored in place of stderr when a signal ends the child.
pub open spec fn interrupted_note() -> Seq<char> {
    "Interrupted! in RunCmd"@
}

/// What recording a spawn outcome over the previously stored output yields:
/// the new stored output, or nothing when a captured stream was not text.
///
/// A normal exit keeps the stored command and replaces the other fields with
/// the decoded streams and the exit code. An interrupted child keeps the
/// stored command, records an empty stdout, and stores the sentinel `-1` with
/// a fixed diagnostic in place of stderr.
pub open spec fn recorded_view(prev: OutputView, outcome: SpawnOutcome) -> Option<OutputView> {
    match outcome {
        SpawnOutcome::Exited { code, stdout, stderr } => {
            match (utf8_decode(stdout@), utf8_decode(stderr@)) {
                (Some(out_text), Some(err_text)) => Some(
                    OutputView {
                        cmd: prev.cmd,
                        stdout: out_text,
                        stderr: err_text,
                        exitcode: code as int,
                    },
                ),
                _ => None,
            }
        },
        SpawnOutcome::Interrupted => Some(
            OutputView {
                cmd: prev.cmd,
                stdout: Seq::empty(),
                stderr: interrupted_note(),
                exitcode: -1,
            },
        ),
    }
}

/// Whether `next` is an output that recording some spawn outcome over `prev`
/// can yield: every result a run hands out satisfies this.
pub open spec fn recordable_from(prev: OutputView, next: OutputView) -> bool {
    exists|oc: SpawnOutcome| recorded_view(prev, oc) == Some(next)
}

/// The stored output after recording an outcome: the recorded value, or the
/// previous one when recording failed on output that was not text.
pub open spec fn replayed(prev: OutputView, outcome: SpawnOutcome) -> OutputView {
    match recorded_view(prev, outcome) {
        Some(m) => m,
        None => prev,
    }
}

/// The fail-fast policy applied to one captured result: a run that finished
/// with exit code zero raises no error, and every other run — a real non-zero
/// code or the interruption sentinel — is the fatal error carrying that code.
pub fn fail_on_nonzero(out: &RunCmdOutput) -> (r: Result<(), RunCmdError>)
    ensures
        match r {
            Ok(()) => out@.exitcode == 0,
            Err(e) => (e matches RunCmdError::NonZeroExit(code) && code as int == out@.exitcode)
                && out@.exitcode != 0,
        },
{
    if out.exitcode != 0 {
        Err(RunCmdError::NonZeroExit(out.exitcode))
    } else {
        Ok(())
    }
}

/// No execution path rewrites the stored command: whatever outcome a run
/// records, the recorded `cmd` field is exactly the command the runner held
/// before — the string it was built with.
pub proof fn lemma_command_preserved(prev: OutputView, outcome: SpawnOutcome)
    ensures
        recorded_view(prev, outcome) matches Some(m) ==> m.cmd == prev.cmd,
{
}

/// Replaying an execution is idempotent: recording the same outcome a second
/// time, over the state the first recording left behind, returns the same
/// result and leaves the same state. So two runs of one runner whose command
/// behaves the same way both times yield identical results.
pub proof fn lemma_record_replay(prev: OutputView, outcome: SpawnOutcome)
    ensures
        recorded_view(replayed(prev, outcome), outcome) == recorded_view(prev, outcome),
        replayed(replayed(prev, outcome), outcome) == replayed(prev, outcome),
{
}

/// Verbose mode changes no recorded value: what a run records depends only on
/// the previously stored output and on how the child ended, never on the
/// verbose flag — that flag only adds a printed report.
pub proof fn lemma_verbose_immaterial(a: RunCmdView, b: RunCmdView, outcome: SpawnOutcome)
    requires
        a.output == b.output,
    ensures
        recorded_view(a.output, outcome) == recorded_view(b.output, outcome),
{
}

impl RunCmd {
    /// Builds a runner for `cmd` with every flag off and an empty result.
    /// The command string is taken verbatim; nothing validates it before a run.
    pub fn new(cmd: &str) -> (r: RunCmd)
        ensures
            r@.output.cmd == cmd@,
            r@.output.stdout == Seq::<char>::empty(),
            r@.output.stderr == Seq::<char>::empty(),
            r@.output.exitcode == 0,
            !r@.verbose,
            !r@.executed,
            !r@.shell,
    {
        RunCmd {
            retval: RunCmdOutput {
                cmd: cmd.to_owned(),
                stdout: String::new(),
                stderr: String::new(),
                exitcode: 0,
            },
            verbose: false,
            executed: false,
            shell: false,
        }
    }

    /// Turns verbose mode on: the next run captures the child's output and
    /// prints a labelled report. Idempotent; nothing turns the flag back off.
    pub fn verbose(&mut self) -> (r: &mut RunCmd)
        ensures
            *final(self) == *final(r),
            r@.verbose,
            r@.executed == old(self)@.executed,
            r@.shell == old(self)@.shell,
            r@.output == old(self)@.output,
    {
        self.verbose = true;
        self
    }

    /// Makes the next run hand the whole command line to a system shell, so
    /// shell-only syntax (pipelines, redirection, `;`) works. Idempotent;
    /// nothing turns the flag back off.
    pub fn shell(&mut self) -> (r: &mut RunCmd)
        ensures
            *final(self) == *final(r),
            r@.shell,
            r@.executed == old(self)@.executed,
            r@.verbose == old(self)@.verbose,
            r@.output == old(self)@.output,
    {
        self.shell = true;
        self
    }

    /// Records how a spawned child ended: decodes the captured streams, stores
    /// the new result on the runner, and returns a copy of it. A captured
    /// stream that is not valid UTF-8 is the one error; it leaves the stored
    /// result untouched.
    pub fn record_outcome(&mut self, outcome: SpawnOutcome) -> (r: Result<
        RunCmdOutput,
        RunCmdError,
    >)
        ensures
            final(self)@.verbose == old(self)@.verbose,
            final(self)@.executed == old(self)@.executed,
            final(self)@.shell == old(self)@.shell,
            match recorded_view(old(self)@.output, outcome) {
                Some(m) => (r matches Ok(out) && out@ == m) && final(self)@.output == m,
                None => (r matches Err(e) && e is OutputNotText) && final(self)@.output == old(
                    self,
                )@.output,
            },
    {
        match outcome {
            SpawnOutcome::Exited { code, stdout, stderr } => {
                let out_text = utf8_to_string(stdout);
                let err_text = utf8_to_string(stderr);
                match (out_text, err_text) {
                    (Some(out_text), Some(err_text)) => {
                        self.retval.exitcode = code;
                        self.retval.stdout = out_text;
                        self.retval.stderr = err_text;
                        Ok(self.retval.clone())
                    },
                    _ => Err(RunCmdError::OutputNotText),
                }
            },
            SpawnOutcome::Interrupted => {
                self.retval.exitcode = -1;
                self.retval.stdout = String::new();
                self.retval.stderr = "Interrupted! in RunCmd".to_owned();
                Ok(self.retval.clone())
            },
        }
    }

    /// Runs the command once and returns the captured result, also storing a
    /// copy of it on the runner.
    ///
    /// The spawn path follows the shell flag; the child's output is captured
    /// into buffers whenever verbose mode is on or the fail-fast path is not
    /// in use, and streams to the caller's terminal otherwise. A non-zero exit
    /// code and an interrupted child are data in the result, not errors; the
    /// errors are a failed spawn (which leaves the stored result untouched)
    /// and captured output that is not text. In verbose mode a labelled report
    /// is printed before returning.
    pub fn execute_output(&mut self) -> (r: Result<RunCmdOutput, RunCmdError>)
        ensures
            final(self)@.verbose == old(self)@.verbose,
            final(self)@.executed == old(self)@.executed,
            final(self)@.shell == old(self)@.shell,
            final(self)@.output.cmd == old(self)@.output.cmd,
            match r {
                Ok(out) => out@ == final(self)@.output && recordable_from(
                    old(self)@.output,
                    out@,
                ),
                Err(e) => final(self)@.output == old(self)@.output && (e is Spawn
                    || e is OutputNotText),
            },
            r matches Ok(out) ==> ((old(self)@.executed && !old(self)@.verbose) ==> (out@.exitcode
                == -1 || (out@.stdout.len() == 0 && out@.stderr.len() == 0))),
    {
        let captured = self.verbose || !self.executed;
        let spawned: Result<SpawnOutcome, ()> = if self.shell {
            if captured {
                spawn_shell_captured(self.retval.cmd.as_str())
            } else {
                spawn_shell_streamed(self.retval.cmd.as_str())
            }
        } else {
            if captured {
                spawn_direct_captured(self.retval.cmd.as_str())
            } else {
                spawn_direct_streamed(self.retval.cmd.as_str())
            }
        };
        match spawned {
            Err(_) => Err(RunCmdError::Spawn),
            Ok(outcome) => {
                let ghost outcome_witness = outcome;
                match self.record_outcome(outcome) {
                    Ok(out) => {
                        proof {
                            assert(recorded_view(old(self)@.output, outcome_witness) == Some(
                                out@,
                            ));
                            assert(recordable_from(old(self)@.output, out@));
                        }
                        if self.verbose {
                            print_report(
                                self.retval.cmd.as_str(),
                                self.retval.stdout.as_str(),
                                self.retval.stderr.as_str(),
                                self.retval.exitcode,
                            );
                        }
                        Ok(out)
                    },
                    Err(e) => Err(e),
                }
            },
        }
    }

    /// The fail-fast path: marks the runner as executed, runs the command, and
    /// demands exit code zero.
    ///
    /// Returns nothing on success; any other ending is an error, so a caller
    /// that unwraps the result halts on the first failed step. The non-zero
    /// exit code (`-1` when a signal ended the child) rides along in the
    /// error.
    pub fn execute(&mut self) -> (r: Result<(), RunCmdError>)
        ensures
            final(self)@.executed,
            final(self)@.verbose == old(self)@.verbose,
            final(self)@.shell == old(self)@.shell,
            final(self)@.output.cmd == old(self)@.output.cmd,
            match r {
                Ok(()) => final(self)@.output.exitcode == 0,
                Err(RunCmdError::NonZeroExit(code)) => final(self)@.output.exitcode == code as int
                    && code != 0,
                Err(RunCmdError::Spawn) => final(self)@.output == old(self)@.output,
                Err(RunCmdError::OutputNotText) => final(self)@.output == old(self)@.output,
            },
            (r is Ok || r matches Err(RunCmdError::NonZeroExit(_))) ==> recordable_from(
                old(self)@.output,
                final(self)@.output,
            ),
    {
        self.executed = true;
        match self.execute_output() {
            Ok(out) => fail_on_nonzero(&out),
            Err(e) => Err(e),
        }
    }
}

} // verus!

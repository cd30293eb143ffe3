//! The boundary to the operating system's process-creation facility.
//!
//! Everything here either is a plain value describing how a child process
//! ended, or is a trusted call into the `execute` crate (and the pieces of
//! std it hands its results through). The verified runner logic lives in
//! [`crate::runcmd`] and treats a [`SpawnOutcome`] as an arbitrary value.

use std::io::Write;

use execute::Execute;
use vstd::prelude::*;

verus! {

/// How one run of a child process ended, as plain values.
///
/// `Exited` carries the exit code from the wait status and the bytes collected
/// from the child's stdout and stderr (empty when the streams were not
/// captured). `Interrupted` means a signal ended the child before it could
/// produce an exit code.
pub enum SpawnOutcome {
    Exited { code: i32, stdout: Vec<u8>, stderr: Vec<u8> },
    Interrupted,
}

/// What `String::from_utf8` returns on the given bytes: the decoded text, or
/// nothing when the bytes are not valid UTF-8.
pub uninterp spec fn utf8_decode(bytes: Seq<u8>) -> Option<Seq<char>>;

/// Relies on `String::from_utf8`: decoding is a function of the bytes alone,
/// it succeeds exactly on valid UTF-8, and an empty byte string decodes to the
/// empty text.
#[verifier::external_body]
pub(crate) fn utf8_to_string(bytes: Vec<u8>) -> (r: Option<String>)
    ensures
        match r {
            Some(s) => utf8_decode(bytes@) == Some(s@) && (bytes@.len() == 0 ==> s@.len() == 0),
            None => utf8_decode(bytes@) is None && bytes@.len() != 0,
        },
{
    String::from_utf8(bytes).ok()
}

/// Relies on `execute::shell` (a command running `$SHELL -c <cmd>`) and std's
/// `Command::output`: the child runs to completion with stdout and stderr
/// captured into buffers; the exit code comes from the wait status and is
/// absent when a signal ended the child; the error case is a failure to spawn.
#[verifier::external_body]
pub(crate) fn spawn_shell_captured(cmd: &str) -> (r: Result<SpawnOutcome, ()>) {
    let mut executor = execute::shell(cmd);
    match executor.output() {
        Ok(out) => Ok(match out.status.code() {
            Some(code) => SpawnOutcome::Exited { code, stdout: out.stdout, stderr: out.stderr },
            None => SpawnOutcome::Interrupted,
        }),
        Err(_) => Err(()),
    }
}

/// Relies on `execute::command` (the command line split into a program and its
/// arguments, no shell) and std's `Command::output`, as the shell form above.
#[verifier::external_body]
pub(crate) fn spawn_direct_captured(cmd: &str) -> (r: Result<SpawnOutcome, ()>) {
    let mut executor = execute::command(cmd);
    match executor.output() {
        Ok(out) => Ok(match out.status.code() {
            Some(code) => SpawnOutcome::Exited { code, stdout: out.stdout, stderr: out.stderr },
            None => SpawnOutcome::Interrupted,
        }),
        Err(_) => Err(()),
    }
}

/// Relies on `execute::shell` and `execute::Execute::execute_output`
/// (`spawn` + `wait_with_output` with no stream redirected): the child writes
/// to the caller's own stdout and stderr, so the collected buffers stay empty;
/// and on `String::from_utf8`, which decodes empty bytes to the empty text.
#[verifier::external_body]
pub(crate) fn spawn_shell_streamed(cmd: &str) -> (r: Result<SpawnOutcome, ()>)
    ensures
        r matches Ok(SpawnOutcome::Exited { stdout, stderr, .. }) ==> stdout@.len() == 0
            && stderr@.len() == 0 && utf8_decode(stdout@) == Some(Seq::<char>::empty())
            && utf8_decode(stderr@) == Some(Seq::<char>::empty()),
{
    let mut executor = execute::shell(cmd);
    match executor.execute_output() {
        Ok(out) => Ok(match out.status.code() {
            Some(code) => SpawnOutcome::Exited { code, stdout: out.stdout, stderr: out.stderr },
            None => SpawnOutcome::Interrupted,
        }),
        Err(_) => Err(()),
    }
}

/// Relies on `execute::command` and `execute::Execute::execute_output`, as the
/// shell form above: nothing is captured, the collected buffers stay empty and
/// decode to the empty text.
#[verifier::external_body]
pub(crate) fn spawn_direct_streamed(cmd: &str) -> (r: Result<SpawnOutcome, ()>)
    ensures
        r matches Ok(SpawnOutcome::Exited { stdout, stderr, .. }) ==> stdout@.len() == 0
            && stderr@.len() == 0 && utf8_decode(stdout@) == Some(Seq::<char>::empty())
            && utf8_decode(stderr@) == Some(Seq::<char>::empty()),
{
    let mut executor = execute::command(cmd);
    match executor.execute_output() {
        Ok(out) => Ok(match out.status.code() {
            Some(code) => SpawnOutcome::Exited { code, stdout: out.stdout, stderr: out.stderr },
            None => SpawnOutcome::Interrupted,
        }),
        Err(_) => Err(()),
    }
}

/// Relies on std's `Stdout::write_fmt`, through the `writeln` macro: prints
/// the recorded command, stdout, stderr and exit code as a labelled report.
#[verifier::external_body]
pub(crate) fn print_report(cmd: &str, stdout: &str, stderr: &str, exitcode: i32) {
    let _ = writeln!(
        std::io::stdout(),
        "cmd:\n '{}'\n\nstdout:\n '{}'\n\nstderr:\n '{}'\n\nexitcode: '{}'\n",
        cmd,
        stdout,
        stderr,
        exitcode,
    );
}

} // verus!

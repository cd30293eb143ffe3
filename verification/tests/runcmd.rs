use runcmd::runcmd::{RunCmd, RunCmdError};
use runcmd::spawn::SpawnOutcome;

#[test]
fn execute_pass() {
    RunCmd::new("bash -c \"exit 0\"").execute().unwrap();
}

#[test]
#[should_panic]
fn execute_fail() {
    RunCmd::new("bash -c \"exit -1\"").execute().unwrap();
}

#[test]
fn execute_verbose() {
    RunCmd::new("echo bar; exit 0").verbose().execute().unwrap();
}

#[test]
fn execute_shell() {
    RunCmd::new("echo foobar; exit 0").shell().execute().unwrap();
}

#[test]
fn execute_output_pass() {
    let retval = RunCmd::new("bash -c \"echo foo; >&2 echo bar; exit -1\"").execute_output().unwrap();
    assert_eq!(retval.exitcode, 255);
    assert_eq!(&retval.stdout, "foo\n");
    assert_eq!(&retval.stderr, "bar\n");
    assert_eq!(&retval.cmd, "bash -c \"echo foo; >&2 echo bar; exit -1\"");
}

#[test]
fn execute_output_shell_pass() {
    // The expected values assume a bash `$SHELL`, where `exit -1` wraps to
    // 255; a strict POSIX `sh` rejects the negative value instead. Pin the
    // interpreter for this one run, since the test harness clears `SHELL`.
    temp_env::with_var("SHELL", Some("/bin/bash"), || {
        let retval =
            RunCmd::new("echo foo; >&2 echo bar; exit -1").shell().execute_output().unwrap();
        assert_eq!(retval.exitcode, 255);
        assert_eq!(&retval.stdout, "foo\n");
        assert_eq!(&retval.stderr, "bar\n");
        assert_eq!(&retval.cmd, "echo foo; >&2 echo bar; exit -1");
    });
}

#[test]
fn shell_mode_exit_one_yields_both_streams() {
    let retval = RunCmd::new("echo foo; >&2 echo bar; exit 1").shell().execute_output().unwrap();
    assert_eq!(retval.exitcode, 1);
    assert_eq!(&retval.stdout, "foo\n");
    assert_eq!(&retval.stderr, "bar\n");
}

#[test]
fn direct_mode_split_args_succeeds() {
    let retval = RunCmd::new("bash -c \"exit 0\"").execute_output().unwrap();
    assert_eq!(retval.exitcode, 0);
}

#[test]
fn direct_mode_differs_from_shell_on_shell_syntax() {
    // Split on whitespace, `echo` just prints the pseudo-arguments: no child
    // process ever runs `exit 1`, so the run succeeds with the text on stdout.
    let retval = RunCmd::new("echo foo; exit 1").execute_output().unwrap();
    assert_eq!(retval.exitcode, 0);
    assert_eq!(&retval.stdout, "foo; exit 1\n");
}

#[test]
fn captured_replay_is_idempotent() {
    let mut runner = RunCmd::new("echo x");
    let first = runner.execute_output().unwrap();
    let second = runner.execute_output().unwrap();
    assert_eq!(first.stdout, second.stdout);
    assert_eq!(first.stderr, second.stderr);
    assert_eq!(first.exitcode, second.exitcode);
    assert_eq!(first.cmd, second.cmd);
}

#[test]
fn verbose_changes_no_value() {
    let quiet = RunCmd::new("bash -c \"echo foo; >&2 echo bar; exit 7\"").execute_output().unwrap();
    let loud =
        RunCmd::new("bash -c \"echo foo; >&2 echo bar; exit 7\"").verbose().execute_output().unwrap();
    assert_eq!(quiet.exitcode, loud.exitcode);
    assert_eq!(quiet.stdout, loud.stdout);
    assert_eq!(quiet.stderr, loud.stderr);
}

#[test]
fn command_field_equals_construction_string() {
    let direct = RunCmd::new("echo same").execute_output().unwrap();
    assert_eq!(&direct.cmd, "echo same");
    let shelled = RunCmd::new("echo same").shell().execute_output().unwrap();
    assert_eq!(&shelled.cmd, "echo same");
}

#[test]
fn execute_reports_nonzero_exit_code() {
    let err = RunCmd::new("bash -c \"exit 3\"").execute().unwrap_err();
    assert!(matches!(err, RunCmdError::NonZeroExit(3)));
}

#[test]
fn spawn_failure_is_an_error() {
    let err = RunCmd::new("surely-no-such-program-here --flag").execute_output().unwrap_err();
    assert!(matches!(err, RunCmdError::Spawn));
    let err = RunCmd::new("").execute_output().unwrap_err();
    assert!(matches!(err, RunCmdError::Spawn));
}

#[test]
fn record_interrupted_sets_sentinel() {
    let mut runner = RunCmd::new("whatever");
    let retval = runner.record_outcome(SpawnOutcome::Interrupted).unwrap();
    assert_eq!(retval.exitcode, -1);
    assert_eq!(&retval.stderr, "Interrupted! in RunCmd");
    assert_eq!(&retval.stdout, "");
    assert_eq!(&retval.cmd, "whatever");
}

#[test]
fn record_decodes_multibyte_text() {
    let mut runner = RunCmd::new("whatever");
    let outcome = SpawnOutcome::Exited {
        code: 0,
        stdout: vec![0xC3, 0xA9],
        stderr: Vec::new(),
    };
    let retval = runner.record_outcome(outcome).unwrap();
    assert_eq!(&retval.stdout, "\u{e9}");
    assert_eq!(&retval.stderr, "");
    assert_eq!(retval.exitcode, 0);
}

#[test]
fn record_rejects_output_that_is_not_text() {
    let mut runner = RunCmd::new("whatever");
    let good = SpawnOutcome::Exited {
        code: 7,
        stdout: b"hi".to_vec(),
        stderr: Vec::new(),
    };
    assert_eq!(&runner.record_outcome(good).unwrap().stdout, "hi");

    let bad = SpawnOutcome::Exited {
        code: 0,
        stdout: vec![0xFF, 0xFE],
        stderr: Vec::new(),
    };
    let err = runner.record_outcome(bad).unwrap_err();
    assert!(matches!(err, RunCmdError::OutputNotText));

    // An interruption records a fresh result even after a captured run: an
    // empty stdout, the diagnostic, and the sentinel code.
    let after = runner.record_outcome(SpawnOutcome::Interrupted).unwrap();
    assert_eq!(&after.stdout, "");
    assert_eq!(&after.stderr, "Interrupted! in RunCmd");
    assert_eq!(after.exitcode, -1);
}

#[test]
fn fail_fast_policy_judges_the_exit_code() {
    let mut runner = RunCmd::new("whatever");
    let zero = runner
        .record_outcome(SpawnOutcome::Exited { code: 0, stdout: Vec::new(), stderr: Vec::new() })
        .unwrap();
    assert!(runcmd::runcmd::fail_on_nonzero(&zero).is_ok());

    let five = runner
        .record_outcome(SpawnOutcome::Exited { code: 5, stdout: Vec::new(), stderr: Vec::new() })
        .unwrap();
    let err = runcmd::runcmd::fail_on_nonzero(&five).unwrap_err();
    assert!(matches!(err, RunCmdError::NonZeroExit(5)));

    let interrupted = runner.record_outcome(SpawnOutcome::Interrupted).unwrap();
    let err = runcmd::runcmd::fail_on_nonzero(&interrupted).unwrap_err();
    assert!(matches!(err, RunCmdError::NonZeroExit(-1)));
}

#[test]
fn fail_fast_path_streams_live() {
    // Once the fail-fast path is in use and verbose is off, output is not
    // redirected: it goes to the caller's terminal and nothing is captured.
    let mut runner = RunCmd::new("echo hi");
    runner.execute().unwrap();
    let retval = runner.execute_output().unwrap();
    assert_eq!(retval.exitcode, 0);
    assert_eq!(&retval.stdout, "");
    assert_eq!(&retval.stderr, "");
}

#[test]
fn builder_flags_are_idempotent() {
    let retval = RunCmd::new("echo foo; >&2 echo bar; exit 1")
        .shell()
        .shell()
        .verbose()
        .verbose()
        .execute_output()
        .unwrap();
    assert_eq!(retval.exitcode, 1);
    assert_eq!(&retval.stdout, "foo\n");
    assert_eq!(&retval.stderr, "bar\n");
}

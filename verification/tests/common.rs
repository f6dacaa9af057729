use twoliter::common::exec_mode;
use twoliter::common::exec_result;
use twoliter::common::output_mode;
use twoliter::common::OutputMode;
use twoliter::common::ProcessOutput;
use twoliter::common::Verbosity;
use twoliter::error::Error;
use twoliter::error::ErrorKind;
use twoliter::error::FsOperation;

fn output(success: bool, code: Option<i32>) -> ProcessOutput {
    ProcessOutput {
        success,
        code,
        stdout: "some output".to_string(),
        stderr: "some error".to_string(),
    }
}

#[test]
fn quiet_levels_buffer_and_loud_levels_stream() {
    assert_eq!(output_mode(Verbosity::Off), OutputMode::Buffered);
    assert_eq!(output_mode(Verbosity::Error), OutputMode::Buffered);
    assert_eq!(output_mode(Verbosity::Warn), OutputMode::Buffered);
    assert_eq!(output_mode(Verbosity::Info), OutputMode::Streamed);
    assert_eq!(output_mode(Verbosity::Debug), OutputMode::Streamed);
    assert_eq!(output_mode(Verbosity::Trace), OutputMode::Streamed);
}

#[test]
fn exec_mode_follows_the_log_level() {
    log::set_max_level(log::LevelFilter::Off);
    assert_eq!(exec_mode(), (Verbosity::Off, OutputMode::Buffered));
    log::set_max_level(log::LevelFilter::Error);
    assert_eq!(exec_mode(), (Verbosity::Error, OutputMode::Buffered));
    log::set_max_level(log::LevelFilter::Warn);
    assert_eq!(exec_mode(), (Verbosity::Warn, OutputMode::Buffered));
    log::set_max_level(log::LevelFilter::Info);
    assert_eq!(exec_mode(), (Verbosity::Info, OutputMode::Streamed));
    log::set_max_level(log::LevelFilter::Debug);
    assert_eq!(exec_mode(), (Verbosity::Debug, OutputMode::Streamed));
    log::set_max_level(log::LevelFilter::Trace);
    assert_eq!(exec_mode(), (Verbosity::Trace, OutputMode::Streamed));
}

#[test]
fn successful_command_is_no_error() {
    assert!(exec_result("cargo make", OutputMode::Buffered, Ok(output(true, Some(0)))).is_ok());
    assert!(exec_result("cargo make", OutputMode::Streamed, Ok(output(true, None))).is_ok());
}

#[test]
fn failed_command_buffered_carries_code_and_output() {
    let error = exec_result("cargo make", OutputMode::Buffered, Ok(output(false, Some(3))))
        .unwrap_err();
    assert!(matches!(
        error.kind(),
        ErrorKind::CommandFailed { code: 3, output: Some(_), .. }
    ));
    assert_eq!(
        error.chain(),
        vec!["Command 'cargo make' was unsuccessful, exit code 3:\nsome output\nsome error"]
    );
    assert_eq!(error.exit_code(), 3);
}

#[test]
fn failed_command_streamed_carries_the_code_only() {
    let error = exec_result("cargo make", OutputMode::Streamed, Ok(output(false, Some(101))))
        .unwrap_err();
    assert!(matches!(
        error.kind(),
        ErrorKind::CommandFailed { code: 101, output: None, .. }
    ));
    assert_eq!(
        error.chain(),
        vec!["Command 'cargo make' was unsuccessful, exit code 101"]
    );
    assert_eq!(error.exit_code(), 101);
}

#[test]
fn command_ended_by_a_signal_counts_as_code_one() {
    let error = exec_result("x", OutputMode::Streamed, Ok(output(false, None))).unwrap_err();
    assert_eq!(error.chain(), vec!["Command 'x' was unsuccessful, exit code 1"]);
    assert_eq!(error.exit_code(), 1);
    let error = exec_result("x", OutputMode::Streamed, Ok(output(false, Some(-9)))).unwrap_err();
    assert_eq!(error.chain(), vec!["Command 'x' was unsuccessful, exit code -9"]);
    assert_eq!(error.exit_code(), -9);
    let error = exec_result("x", OutputMode::Streamed, Ok(output(false, Some(0)))).unwrap_err();
    assert_eq!(error.exit_code(), 1);
}

#[test]
fn command_that_does_not_start() {
    let error = exec_result("nope", OutputMode::Buffered, Err("not found".to_string()))
        .unwrap_err();
    assert!(matches!(error.kind(), ErrorKind::CommandStart { .. }));
    assert_eq!(
        error.chain(),
        vec!["Unable to start command 'nope'", "not found"]
    );
    assert_eq!(error.exit_code(), 1);
}

#[test]
fn errors_are_told_from_the_outside_in() {
    let error = Error::new(ErrorKind::Filesystem {
        operation: FsOperation::Read,
        path: "/a".to_string(),
        reason: "denied".to_string(),
    })
    .context("inner")
    .context("outer");
    assert_eq!(
        error.chain(),
        vec!["outer", "inner", "Unable to read file '/a'", "denied"]
    );
    assert_eq!(error.clone().chain(), error.chain());
    assert_eq!(
        error.report(),
        "outer: inner: Unable to read file '/a': denied"
    );
    assert_eq!(
        Error::new(ErrorKind::MissingSdk).report(),
        "No image is configured for the build environment"
    );
    assert_eq!(error.kind().message(), "Unable to read file '/a'");
    assert_eq!(error.kind().reason(), Some("denied".to_string()));
    assert_eq!(error.kind().clone().message(), error.kind().message());
}

#[test]
fn every_kind_of_error_has_its_message() {
    let fs = |operation| ErrorKind::Filesystem {
        operation,
        path: "/a".to_string(),
        reason: "r".to_string(),
    };
    assert_eq!(fs(FsOperation::CreateDir).message(), "Unable to create directory '/a'");
    assert_eq!(fs(FsOperation::Read).message(), "Unable to read file '/a'");
    assert_eq!(fs(FsOperation::Write).message(), "Unable to write to '/a'");
    assert_eq!(fs(FsOperation::Remove).message(), "Unable to remove '/a'");
    assert_eq!(fs(FsOperation::Canonicalize).message(), "Unable to canonicalize '/a'");
    assert_eq!(
        ErrorKind::MissingSdk.message(),
        "No image is configured for the build environment"
    );
    assert_eq!(ErrorKind::MissingSdk.reason(), None);
    assert_eq!(
        ErrorKind::ProjectNotFound { directory: "/d".to_string() }.message(),
        "Unable to find a project file in '/d' or above it"
    );
    assert_eq!(
        ErrorKind::CorruptBundle { directory: "/d".to_string(), reason: "r".to_string() }
            .message(),
        "Unable to unpack tarball into directory '/d'"
    );
    assert_eq!(
        ErrorKind::UnresolvedPath { path: "/x".to_string() }.message(),
        "Cannot resolve path '/x'"
    );
}

#[test]
fn captured_output_is_kept_as_text() {
    let output = ProcessOutput::captured(false, Some(2), &b"built 3 of 4\n".to_vec(), &vec![]);
    assert!(!output.success);
    assert_eq!(output.code, Some(2));
    assert_eq!(output.stdout, "built 3 of 4\n");
    assert_eq!(output.stderr, "");
    let output = ProcessOutput::captured(true, None, &vec![0xe2, 0x82, 0xac], &vec![b'a', 0xff, b'b']);
    assert_eq!(output.stdout, "\u{20ac}");
    assert_eq!(output.stderr, "a\u{fffd}b");
    let error = exec_result(
        "x",
        OutputMode::Buffered,
        Ok(ProcessOutput::captured(false, Some(1), &b"out".to_vec(), &b"err".to_vec())),
    )
    .unwrap_err();
    assert_eq!(
        error.chain(),
        vec!["Command 'x' was unsuccessful, exit code 1:\nout\nerr"]
    );
}

#[test]
fn streamed_output_is_not_kept() {
    let output = ProcessOutput::streamed(false, Some(7));
    assert!(!output.success);
    assert_eq!(output.code, Some(7));
    assert_eq!(output.stdout, "");
    assert_eq!(output.stderr, "");
}

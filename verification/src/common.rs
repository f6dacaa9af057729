//! Running a command: how its output is handled, and what its end means.

use vstd::prelude::*;
use vstd::string::StringExecFns;
use crate::error::CapturedOutput;
use crate::error::Error;
use crate::error::ErrorKind;
use crate::error::ErrorKindView;
use crate::error::ErrorView;
use crate::error::result_view;
use crate::variables::Variable;

verus! {

/// How much the tool tells of what it does, from nothing to everything.
#[derive(Debug, Clone, Copy, PartialEq, Eq, Structural, Hash)]
pub enum Verbosity {
    Off,
    Error,
    Warn,
    Info,
    Debug,
    Trace,
}

/// What becomes of the output of a command.
#[derive(Debug, Clone, Copy, PartialEq, Eq, Structural, Hash)]
pub enum OutputMode {
    /// The output is captured, and shown only if the command fails.
    Buffered,
    /// The output goes where the tool's own output goes, as it comes.
    Streamed,
}

/// The quiet levels capture the output of commands; from `Info` on it is
/// streamed.
pub open spec fn output_mode_of(level: Verbosity) -> OutputMode {
    match level {
        Verbosity::Off | Verbosity::Error | Verbosity::Warn => OutputMode::Buffered,
        Verbosity::Info | Verbosity::Debug | Verbosity::Trace => OutputMode::Streamed,
    }
}

/// What becomes of the output of a command at a level.
pub fn output_mode(level: Verbosity) -> (r: OutputMode)
    ensures
        r == output_mode_of(level),
{
    match level {
        Verbosity::Off | Verbosity::Error | Verbosity::Warn => OutputMode::Buffered,
        Verbosity::Info | Verbosity::Debug | Verbosity::Trace => OutputMode::Streamed,
    }
}

/// `log::max_level`: the level up to which the process logs at this moment.
/// Nothing is claimed of which level that is.
#[verifier::external_body]
fn max_level() -> (r: Verbosity) {
    match log::max_level() {
        log::LevelFilter::Off => Verbosity::Off,
        log::LevelFilter::Error => Verbosity::Error,
        log::LevelFilter::Warn => Verbosity::Warn,
        log::LevelFilter::Info => Verbosity::Info,
        log::LevelFilter::Debug => Verbosity::Debug,
        log::LevelFilter::Trace => Verbosity::Trace,
    }
}

/// The level at which the process logs at this moment, and what becomes of the
/// output of a command that is run now.
pub fn exec_mode() -> (r: (Verbosity, OutputMode))
    ensures
        r.1 == output_mode_of(r.0),
{
    let level = max_level();
    (level, output_mode(level))
}

/// A command to be run: the program, its arguments, and the variables that are
/// set for it beside those it inherits.
#[derive(Debug)]
pub struct Invocation {
    pub program: String,
    pub args: Vec<String>,
    pub env: Vec<(String, String)>,
}

/// What an `Invocation` stands for.
pub struct InvocationView {
    pub program: Seq<char>,
    pub args: Seq<Seq<char>>,
    pub env: Seq<Variable>,
}

impl DeepView for Invocation {
    type V = InvocationView;

    open spec fn deep_view(&self) -> InvocationView {
        InvocationView {
            program: self.program@,
            args: self.args.deep_view(),
            env: self.env.deep_view(),
        }
    }
}

impl View for Invocation {
    type V = InvocationView;

    open spec fn view(&self) -> InvocationView {
        self.deep_view()
    }
}

/// How a command ended: whether it succeeded, its exit code where it has one,
/// and what it wrote, as far as that was captured.
#[derive(Debug)]
pub struct ProcessOutput {
    pub success: bool,
    pub code: Option<i32>,
    pub stdout: String,
    pub stderr: String,
}

/// What a `ProcessOutput` stands for.
pub struct ProcessOutputView {
    pub success: bool,
    pub code: Option<i32>,
    pub stdout: Seq<char>,
    pub stderr: Seq<char>,
}

impl DeepView for ProcessOutput {
    type V = ProcessOutputView;

    open spec fn deep_view(&self) -> ProcessOutputView {
        ProcessOutputView {
            success: self.success,
            code: self.code,
            stdout: self.stdout@,
            stderr: self.stderr@,
        }
    }
}

impl View for ProcessOutput {
    type V = ProcessOutputView;

    open spec fn view(&self) -> ProcessOutputView {
        self.deep_view()
    }
}

/// What `String::from_utf8_lossy` makes of bytes: the text that they encode,
/// with a replacement character wherever they encode none.
pub uninterp spec fn lossy_text(bytes: Seq<u8>) -> Seq<char>;

/// `String::from_utf8_lossy`: the text that the bytes encode, as a `String`.
/// The result is given a name, `lossy_text`; nothing more is claimed of it.
#[verifier::external_body]
fn from_utf8_lossy(bytes: &Vec<u8>) -> (r: String)
    ensures
        r@ == lossy_text(bytes@),
{
    String::from_utf8_lossy(bytes).into_owned()
}

impl ProcessOutput {
    /// How a command ended whose output was captured: what it wrote is kept
    /// as text.
    pub fn captured(success: bool, code: Option<i32>, stdout: &Vec<u8>, stderr: &Vec<u8>) -> (r:
        Self)
        ensures
            r@ == (ProcessOutputView {
                success,
                code,
                stdout: lossy_text(stdout@),
                stderr: lossy_text(stderr@),
            }),
    {
        ProcessOutput {
            success,
            code,
            stdout: from_utf8_lossy(stdout),
            stderr: from_utf8_lossy(stderr),
        }
    }

    /// How a command ended whose output was streamed: none of it is kept.
    pub fn streamed(success: bool, code: Option<i32>) -> (r: Self)
        ensures
            r@ == (ProcessOutputView {
                success,
                code,
                stdout: Seq::empty(),
                stderr: Seq::empty(),
            }),
    {
        ProcessOutput { success, code, stdout: String::new(), stderr: String::new() }
    }
}

/// What the end of a command means. A command that could not be started is an
/// error with the reason. One that succeeded is no error. One that did not is
/// an error with its exit code, 1 where it has none, and with its captured
/// output where the output was buffered.
pub open spec fn exec_outcome(
    command: Seq<char>,
    mode: OutputMode,
    ended: Result<ProcessOutputView, Seq<char>>,
) -> Result<(), ErrorView> {
    match ended {
        Err(reason) => Err(
            ErrorView {
                kind: ErrorKindView::CommandStart { command, reason },
                contexts: Seq::empty(),
            },
        ),
        Ok(output) => if output.success {
            Ok(())
        } else {
            Err(
                ErrorView {
                    kind: ErrorKindView::CommandFailed {
                        command,
                        code: match output.code {
                            Some(code) => code as int,
                            None => 1,
                        },
                        output: match mode {
                            OutputMode::Buffered => Some((output.stdout, output.stderr)),
                            OutputMode::Streamed => None,
                        },
                    },
                    contexts: Seq::empty(),
                },
            )
        },
    }
}

/// Says what the end of a command means: `command` is the command as it is
/// shown to the user, `mode` what became of its output, and `ended` how it
/// ended, or why it could not be started.
pub fn exec_result(command: &str, mode: OutputMode, ended: Result<ProcessOutput, String>) -> (r:
    Result<(), Error>)
    ensures
        result_view(r) == exec_outcome(command@, mode, result_view(ended)),
{
    match ended {
        Err(reason) => Err(
            Error::new(ErrorKind::CommandStart { command: String::from_str(command), reason }),
        ),
        Ok(output) => {
            if output.success {
                Ok(())
            } else {
                let code = match output.code {
                    Some(code) => code,
                    None => 1,
                };
                let captured = match mode {
                    OutputMode::Buffered => Some(
                        CapturedOutput { stdout: output.stdout, stderr: output.stderr },
                    ),
                    OutputMode::Streamed => None,
                };
                Err(
                    Error::new(
                        ErrorKind::CommandFailed {
                            command: String::from_str(command),
                            code,
                            output: captured,
                        },
                    ),
                )
            }
        },
    }
}

} // verus!

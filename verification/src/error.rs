//! What can go wrong, and how it is told to the user.

use vstd::prelude::*;
use vstd::string::StringExecFns;
use crate::text::copy_texts;
use crate::text::decimal;
use crate::text::join;
use crate::text::joined_text;
use crate::text::decimal_text;
use crate::text::push_str;
use crate::text::push_string;

verus! {

/// What a result stands for: what its value stands for, or what its error
/// stands for.
pub open spec fn result_view<T: DeepView, E: DeepView>(r: Result<T, E>) -> Result<T::V, E::V> {
    match r {
        Ok(value) => Ok(value.deep_view()),
        Err(error) => Err(error.deep_view()),
    }
}

/// What was being done to a path when the filesystem refused.
#[derive(Debug, Clone, Copy, PartialEq, Eq, Structural, Hash)]
pub enum FsOperation {
    CreateDir,
    Read,
    Write,
    Remove,
    Canonicalize,
}

impl FsOperation {
    /// How a failure of the operation begins to be told, up to the path.
    pub open spec fn failure_text(self) -> Seq<char> {
        match self {
            FsOperation::CreateDir => "Unable to create directory '"@,
            FsOperation::Read => "Unable to read file '"@,
            FsOperation::Write => "Unable to write to '"@,
            FsOperation::Remove => "Unable to remove '"@,
            FsOperation::Canonicalize => "Unable to canonicalize '"@,
        }
    }

    /// How a failure of the operation begins to be told, up to the path.
    pub fn failure(&self) -> (r: &'static str)
        ensures
            r@ == self.failure_text(),
    {
        match self {
            FsOperation::CreateDir => "Unable to create directory '",
            FsOperation::Read => "Unable to read file '",
            FsOperation::Write => "Unable to write to '",
            FsOperation::Remove => "Unable to remove '",
            FsOperation::Canonicalize => "Unable to canonicalize '",
        }
    }
}

/// What a command wrote while it ran.
#[derive(Debug)]
pub struct CapturedOutput {
    pub stdout: String,
    pub stderr: String,
}

impl DeepView for CapturedOutput {
    type V = (Seq<char>, Seq<char>);

    open spec fn deep_view(&self) -> (Seq<char>, Seq<char>) {
        (self.stdout@, self.stderr@)
    }
}

impl Clone for CapturedOutput {
    fn clone(&self) -> (r: Self)
        ensures
            r.deep_view() == self.deep_view(),
    {
        CapturedOutput { stdout: self.stdout.clone(), stderr: self.stderr.clone() }
    }
}

/// What went wrong.
#[derive(Debug)]
pub enum ErrorKind {
    /// The filesystem refused an operation on a path.
    Filesystem { operation: FsOperation, path: String, reason: String },
    /// A command could not be started.
    CommandStart { command: String, reason: String },
    /// A command ran and did not succeed. The output is there where it was
    /// captured.
    CommandFailed { command: String, code: i32, output: Option<CapturedOutput> },
    /// The project names no image for the build environment.
    MissingSdk,
    /// No project file was found at or above a directory.
    ProjectNotFound { directory: String },
    /// The tool bundle could not be unpacked into a directory.
    CorruptBundle { directory: String, reason: String },
    /// A path that is to be mounted is absent, lies outside the project, and
    /// is not to be created.
    UnresolvedPath { path: String },
}

/// What an `ErrorKind` stands for.
pub enum ErrorKindView {
    Filesystem { operation: FsOperation, path: Seq<char>, reason: Seq<char> },
    CommandStart { command: Seq<char>, reason: Seq<char> },
    CommandFailed { command: Seq<char>, code: int, output: Option<(Seq<char>, Seq<char>)> },
    MissingSdk,
    ProjectNotFound { directory: Seq<char> },
    CorruptBundle { directory: Seq<char>, reason: Seq<char> },
    UnresolvedPath { path: Seq<char> },
}

impl ErrorKindView {
    /// What is told of the error itself.
    pub open spec fn message(self) -> Seq<char> {
        match self {
            ErrorKindView::Filesystem { operation, path, reason } => operation.failure_text() + path
                + "'"@,
            ErrorKindView::CommandStart { command, reason } => "Unable to start command '"@
                + command + "'"@,
            ErrorKindView::CommandFailed { command, code, output } => "Command '"@ + command
                + "' was unsuccessful, exit code "@ + decimal_text(code) + (match output {
                Some(output) => ":\n"@ + output.0 + "\n"@ + output.1,
                None => Seq::empty(),
            }),
            ErrorKindView::MissingSdk => "No image is configured for the build environment"@,
            ErrorKindView::ProjectNotFound { directory } => "Unable to find a project file in '"@
                + directory + "' or above it"@,
            ErrorKindView::CorruptBundle { directory, reason } =>
                "Unable to unpack tarball into directory '"@ + directory + "'"@,
            ErrorKindView::UnresolvedPath { path } => "Cannot resolve path '"@ + path + "'"@,
        }
    }

    /// What lay under the error, where something did.
    pub open spec fn reason(self) -> Option<Seq<char>> {
        match self {
            ErrorKindView::Filesystem { operation, path, reason } => Some(reason),
            ErrorKindView::CommandStart { command, reason } => Some(reason),
            ErrorKindView::CorruptBundle { directory, reason } => Some(reason),
            _ => None,
        }
    }

    /// The status with which the tool ends on this error: that of the command
    /// that failed, and 1 where that is 0 or no command failed.
    pub open spec fn exit_code(self) -> int {
        match self {
            ErrorKindView::CommandFailed { command, code, output } => if code == 0 {
                1
            } else {
                code
            },
            _ => 1,
        }
    }
}

impl DeepView for ErrorKind {
    type V = ErrorKindView;

    open spec fn deep_view(&self) -> ErrorKindView {
        match self {
            ErrorKind::Filesystem { operation, path, reason } => ErrorKindView::Filesystem {
                operation: *operation,
                path: path@,
                reason: reason@,
            },
            ErrorKind::CommandStart { command, reason } => ErrorKindView::CommandStart {
                command: command@,
                reason: reason@,
            },
            ErrorKind::CommandFailed { command, code, output } => ErrorKindView::CommandFailed {
                command: command@,
                code: *code as int,
                output: output.deep_view(),
            },
            ErrorKind::MissingSdk => ErrorKindView::MissingSdk,
            ErrorKind::ProjectNotFound { directory } => ErrorKindView::ProjectNotFound {
                directory: directory@,
            },
            ErrorKind::CorruptBundle { directory, reason } => ErrorKindView::CorruptBundle {
                directory: directory@,
                reason: reason@,
            },
            ErrorKind::UnresolvedPath { path } => ErrorKindView::UnresolvedPath { path: path@ },
        }
    }
}

impl View for ErrorKind {
    type V = ErrorKindView;

    open spec fn view(&self) -> ErrorKindView {
        self.deep_view()
    }
}

impl ErrorKind {
    /// What is told of the error itself.
    pub fn message(&self) -> (r: String)
        ensures
            r@ == self@.message(),
    {
        match self {
            ErrorKind::Filesystem { operation, path, reason } => {
                let mut s = String::from_str(operation.failure());
                s.append(path.as_str());
                s.append("'");
                s
            },
            ErrorKind::CommandStart { command, reason } => {
                let mut s = String::from_str("Unable to start command '");
                s.append(command.as_str());
                s.append("'");
                s
            },
            ErrorKind::CommandFailed { command, code, output } => {
                let mut s = String::from_str("Command '");
                s.append(command.as_str());
                s.append("' was unsuccessful, exit code ");
                s.append(decimal(*code).as_str());
                match output {
                    Some(output) => {
                        s.append(":\n");
                        s.append(output.stdout.as_str());
                        s.append("\n");
                        s.append(output.stderr.as_str());
                        assert(s@ =~= self@.message());
                    },
                    None => {
                        assert(s@ =~= self@.message());
                    },
                }
                s
            },
            ErrorKind::MissingSdk => String::from_str(
                "No image is configured for the build environment",
            ),
            ErrorKind::ProjectNotFound { directory } => {
                let mut s = String::from_str("Unable to find a project file in '");
                s.append(directory.as_str());
                s.append("' or above it");
                s
            },
            ErrorKind::CorruptBundle { directory, reason } => {
                let mut s = String::from_str("Unable to unpack tarball into directory '");
                s.append(directory.as_str());
                s.append("'");
                s
            },
            ErrorKind::UnresolvedPath { path } => {
                let mut s = String::from_str("Cannot resolve path '");
                s.append(path.as_str());
                s.append("'");
                s
            },
        }
    }

    /// What lay under the error, where something did.
    pub fn reason(&self) -> (r: Option<String>)
        ensures
            r.deep_view() == self@.reason(),
    {
        match self {
            ErrorKind::Filesystem { operation, path, reason } => Some(reason.clone()),
            ErrorKind::CommandStart { command, reason } => Some(reason.clone()),
            ErrorKind::CorruptBundle { directory, reason } => Some(reason.clone()),
            _ => None,
        }
    }
}

impl Clone for ErrorKind {
    fn clone(&self) -> (r: Self)
        ensures
            r@ == self@,
    {
        match self {
            ErrorKind::Filesystem { operation, path, reason } => ErrorKind::Filesystem {
                operation: *operation,
                path: path.clone(),
                reason: reason.clone(),
            },
            ErrorKind::CommandStart { command, reason } => ErrorKind::CommandStart {
                command: command.clone(),
                reason: reason.clone(),
            },
            ErrorKind::CommandFailed { command, code, output } => {
                let output = match output {
                    Some(output) => Some(output.clone()),
                    None => None,
                };
                ErrorKind::CommandFailed { command: command.clone(), code: *code, output }
            },
            ErrorKind::MissingSdk => ErrorKind::MissingSdk,
            ErrorKind::ProjectNotFound { directory } => ErrorKind::ProjectNotFound {
                directory: directory.clone(),
            },
            ErrorKind::CorruptBundle { directory, reason } => ErrorKind::CorruptBundle {
                directory: directory.clone(),
                reason: reason.clone(),
            },
            ErrorKind::UnresolvedPath { path } => ErrorKind::UnresolvedPath { path: path.clone() },
        }
    }
}

/// What an `Error` stands for: what went wrong, and what was being done, the
/// innermost undertaking first.
pub struct ErrorView {
    pub kind: ErrorKindView,
    pub contexts: Seq<Seq<char>>,
}

impl ErrorView {
    /// The error as it is told: the undertakings from the outermost in, then
    /// the error itself, then what lay under it.
    pub open spec fn chain(self) -> Seq<Seq<char>> {
        self.contexts.reverse() + seq![self.kind.message()] + (match self.kind.reason() {
            Some(reason) => seq![reason],
            None => Seq::empty(),
        })
    }

    /// The error with one more undertaking around it.
    pub open spec fn context(self, text: Seq<char>) -> ErrorView {
        ErrorView { kind: self.kind, contexts: self.contexts.push(text) }
    }
}

/// What is told of a failure to unpack the tool bundle, around the failure
/// itself.
pub const INSTALL_CONTEXT: &'static str = "Unable to install tools";

/// The error of a filesystem operation that failed.
pub open spec fn fs_error(operation: FsOperation, path: Seq<char>, reason: Seq<char>) -> ErrorView {
    ErrorView { kind: ErrorKindView::Filesystem { operation, path, reason }, contexts: Seq::empty() }
}

/// The error of a tool bundle that could not be unpacked into a directory.
pub open spec fn unpack_error(directory: Seq<char>, reason: Seq<char>) -> ErrorView {
    ErrorView {
        kind: ErrorKindView::CorruptBundle { directory, reason },
        contexts: seq![INSTALL_CONTEXT@],
    }
}

/// The error of a path that cannot be mounted.
pub open spec fn unresolved(path: Seq<char>) -> ErrorView {
    ErrorView { kind: ErrorKindView::UnresolvedPath { path }, contexts: Seq::empty() }
}

/// The error of a project that names no toolchain image.
pub open spec fn missing_sdk() -> ErrorView {
    ErrorView { kind: ErrorKindView::MissingSdk, contexts: Seq::empty() }
}

/// An error, wrapped in what was being done when it came up.
#[derive(Debug)]
pub struct Error {
    kind: ErrorKind,
    contexts: Vec<String>,
}

impl View for Error {
    type V = ErrorView;

    closed spec fn view(&self) -> ErrorView {
        ErrorView { kind: self.kind@, contexts: self.contexts.deep_view() }
    }
}

impl DeepView for Error {
    type V = ErrorView;

    open spec fn deep_view(&self) -> ErrorView {
        self@
    }
}

impl Error {
    /// The error of this kind, with nothing around it.
    pub fn new(kind: ErrorKind) -> (r: Self)
        ensures
            r@ == (ErrorView { kind: kind@, contexts: Seq::empty() }),
    {
        let r = Error { kind, contexts: Vec::new() };
        assert(r.contexts.deep_view() =~= Seq::<Seq<char>>::empty());
        r
    }

    /// The error of a filesystem operation that failed.
    pub fn filesystem(operation: FsOperation, path: String, reason: String) -> (r: Self)
        ensures
            r@ == fs_error(operation, path@, reason@),
    {
        Error::new(ErrorKind::Filesystem { operation, path, reason })
    }

    /// The error of a tool bundle that could not be unpacked into a
    /// directory.
    pub fn corrupt_bundle(directory: String, reason: String) -> (r: Self)
        ensures
            r@ == unpack_error(directory@, reason@),
    {
        Error::new(ErrorKind::CorruptBundle { directory, reason }).context(INSTALL_CONTEXT)
    }

    /// The error of a path that cannot be mounted.
    pub fn unresolved_path(path: String) -> (r: Self)
        ensures
            r@ == unresolved(path@),
    {
        Error::new(ErrorKind::UnresolvedPath { path })
    }

    /// The error of a project that names no toolchain image.
    pub fn no_sdk() -> (r: Self)
        ensures
            r@ == missing_sdk(),
    {
        Error::new(ErrorKind::MissingSdk)
    }

    /// The error, wrapped in what was being done.
    pub fn context(self, text: &str) -> (r: Self)
        ensures
            r@ == self@.context(text@),
    {
        let mut error = self;
        push_str(&mut error.contexts, text);
        error
    }

    /// What went wrong.
    pub fn kind(&self) -> (r: &ErrorKind)
        ensures
            r@ == self@.kind,
    {
        &self.kind
    }

    /// The error as it is told, line by line: the undertakings from the
    /// outermost in, then the error itself, then what lay under it.
    pub fn chain(&self) -> (r: Vec<String>)
        ensures
            r.deep_view() == self@.chain(),
    {
        let ghost contexts = self.contexts.deep_view();
        let mut lines: Vec<String> = Vec::new();
        let mut i: usize = self.contexts.len();
        while i > 0
            invariant
                i <= self.contexts.len(),
                contexts == self.contexts.deep_view(),
                lines.deep_view() == contexts.reverse().take(contexts.len() - i),
            decreases i,
        {
            i -= 1;
            push_str(&mut lines, self.contexts[i].as_str());
            assert(lines.deep_view() =~= contexts.reverse().take(contexts.len() - i));
        }
        assert(contexts.reverse().take(contexts.len() as int) =~= contexts.reverse());
        push_string(&mut lines, self.kind.message());
        match self.kind.reason() {
            Some(reason) => {
                push_string(&mut lines, reason);
                assert(lines.deep_view() =~= self@.chain());
            },
            None => {
                assert(lines.deep_view() =~= self@.chain());
            },
        }
        lines
    }

    /// The error as it is told in one line: the lines of the chain with `: `
    /// between each two.
    pub fn report(&self) -> (r: String)
        ensures
            r@ == joined_text(self@.chain(), ": "@),
    {
        join(&self.chain(), ": ")
    }

    /// The status with which the tool ends on this error: that of the command
    /// that failed, and 1 where that is 0 or no command failed. It is never 0.
    pub fn exit_code(&self) -> (r: i32)
        ensures
            r == self@.kind.exit_code(),
            r != 0,
    {
        match &self.kind {
            ErrorKind::CommandFailed { command, code, output } => if *code == 0 {
                1
            } else {
                *code
            },
            _ => 1,
        }
    }
}

impl Clone for Error {
    fn clone(&self) -> (r: Self)
        ensures
            r@ == self@,
    {
        Error { kind: self.kind.clone(), contexts: copy_texts(&self.contexts) }
    }
}

} // verus!

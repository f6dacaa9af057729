//! Building the image of the build environment from the toolchain image.
//!
//! The library decides; its caller touches the filesystem and runs the build.
//! The caller asks what is `pending`, does it, and tells with `step` how it
//! went, until the image is there or the attempt has failed.

use vstd::prelude::*;
use vstd::string::StringExecFns;
use crate::common::exec_outcome;
use crate::common::exec_result;
use crate::common::Invocation;
use crate::common::InvocationView;
use crate::common::OutputMode;
use crate::common::ProcessOutput;
use crate::common::ProcessOutputView;
use crate::docker::commands::DockerBuild;
use crate::docker::commands::DockerBuildView;
use crate::docker::image::ImageArchUri;
use crate::docker::image::ImageArchUriView;
use crate::docker::image::ImageUri;
use crate::docker::image::ImageUriView;
use crate::error::Error;
use crate::error::ErrorView;
use crate::error::FsOperation;
use crate::error::fs_error;
use crate::error::result_view;
use crate::error::unpack_error;
use crate::path::join_path;
use crate::path::joined_path;

verus! {

/// The directory, below the scratch directory, that is handed to the build.
pub const CONTEXT: &'static str = "context";

/// The directory, below the context, that holds the tools.
pub const FILES: &'static str = "files";

/// The file, in the scratch directory, that defines the image.
pub const DOCKERFILE: &'static str = "Twoliter.dockerfile";

/// The build arg that names the toolchain image.
pub const BASE_ARG: &'static str = "BASE";

/// The repository of the image that is built.
pub const IMAGE_REPO: &'static str = "twoliter";

/// The tag of the image that is built.
pub const IMAGE_TAG: &'static str = "latest";

/// What is told of a failure to lay out the scratch directory, around the
/// failure itself.
pub const PREPARE_CONTEXT: &'static str =
    "Unable to prepare directory for building the twoliter image";

/// What is told of a failure of the build, around the failure itself.
pub const BUILD_CONTEXT: &'static str = "Unable to build the twoliter container";

/// The image that is built: always the same one.
pub open spec fn twoliter_image() -> ImageUriView {
    ImageUriView { registry: None, repo: IMAGE_REPO@, tag: IMAGE_TAG@ }
}

/// The directory that is handed to the build, below the scratch directory.
pub open spec fn context_dir(dir: Seq<char>) -> Seq<char> {
    joined_path(dir, CONTEXT@)
}

/// The directory that holds the tools, below the context.
pub open spec fn files_dir(dir: Seq<char>) -> Seq<char> {
    joined_path(context_dir(dir), FILES@)
}

/// The file that defines the image, in the scratch directory.
pub open spec fn dockerfile_path(dir: Seq<char>) -> Seq<char> {
    joined_path(dir, DOCKERFILE@)
}

/// The build of the image: from the definition in the scratch directory, with
/// the context below it, the toolchain image as the build arg `BASE`, and the
/// image's fixed name as the tag.
pub open spec fn twoliter_build(sdk: ImageArchUriView, dir: Seq<char>) -> DockerBuildView {
    DockerBuildView {
        dockerfile: Some(dockerfile_path(dir)),
        context_dir: context_dir(dir),
        tag: Some(twoliter_image()),
        build_args: seq![(BASE_ARG@, sdk.uri())],
    }
}

/// How far the making of the image has come.
#[derive(Debug)]
pub enum ProvisionState {
    CreatingDirs,
    WritingDockerfile,
    UnpackingTools,
    Building,
    Finished(Result<ImageUri, Error>),
}

/// What a `ProvisionState` stands for.
pub enum ProvisionStateView {
    CreatingDirs,
    WritingDockerfile,
    UnpackingTools,
    Building,
    Finished(Result<ImageUriView, ErrorView>),
}

impl DeepView for ProvisionState {
    type V = ProvisionStateView;

    open spec fn deep_view(&self) -> ProvisionStateView {
        match self {
            ProvisionState::CreatingDirs => ProvisionStateView::CreatingDirs,
            ProvisionState::WritingDockerfile => ProvisionStateView::WritingDockerfile,
            ProvisionState::UnpackingTools => ProvisionStateView::UnpackingTools,
            ProvisionState::Building => ProvisionStateView::Building,
            ProvisionState::Finished(result) => ProvisionStateView::Finished(result_view(*result)),
        }
    }
}

/// What the caller tells of the step it was asked to take.
#[derive(Debug)]
pub enum ProvisionEvent {
    /// The step was taken.
    Done,
    /// The step failed, for this reason.
    Failed(String),
    /// The build command was run: the command as it is shown to the user,
    /// what became of its output, and how it ended or why it did not start.
    Ran { command: String, mode: OutputMode, ended: Result<ProcessOutput, String> },
}

/// What a `ProvisionEvent` stands for.
pub enum ProvisionEventView {
    Done,
    Failed(Seq<char>),
    Ran { command: Seq<char>, mode: OutputMode, ended: Result<ProcessOutputView, Seq<char>> },
}

impl DeepView for ProvisionEvent {
    type V = ProvisionEventView;

    open spec fn deep_view(&self) -> ProvisionEventView {
        match self {
            ProvisionEvent::Done => ProvisionEventView::Done,
            ProvisionEvent::Failed(reason) => ProvisionEventView::Failed(reason@),
            ProvisionEvent::Ran { command, mode, ended } => ProvisionEventView::Ran {
                command: command@,
                mode: *mode,
                ended: result_view(*ended),
            },
        }
    }
}

/// What the caller is asked to do next.
#[derive(Debug)]
pub enum ProvisionAction {
    /// Create the directory, and those above it, unless they are there.
    CreateDir { path: String },
    /// Write the image's definition to the file.
    WriteDockerfile { path: String },
    /// Unpack the tool bundle into the directory.
    UnpackTools { directory: String },
    /// Run the build.
    Run(Invocation),
    /// Nothing more: the image is there, or the attempt has failed.
    Finish(Result<ImageUri, Error>),
}

/// What a `ProvisionAction` stands for.
pub enum ProvisionActionView {
    CreateDir { path: Seq<char> },
    WriteDockerfile { path: Seq<char> },
    UnpackTools { directory: Seq<char> },
    Run(InvocationView),
    Finish(Result<ImageUriView, ErrorView>),
}

impl DeepView for ProvisionAction {
    type V = ProvisionActionView;

    open spec fn deep_view(&self) -> ProvisionActionView {
        match self {
            ProvisionAction::CreateDir { path } => ProvisionActionView::CreateDir { path: path@ },
            ProvisionAction::WriteDockerfile { path } => ProvisionActionView::WriteDockerfile {
                path: path@,
            },
            ProvisionAction::UnpackTools { directory } => ProvisionActionView::UnpackTools {
                directory: directory@,
            },
            ProvisionAction::Run(invocation) => ProvisionActionView::Run(invocation@),
            ProvisionAction::Finish(result) => ProvisionActionView::Finish(result_view(*result)),
        }
    }
}

/// What an `ImageProvisioner` stands for.
pub struct ImageProvisionerView {
    pub sdk: ImageArchUriView,
    pub dir: Seq<char>,
    pub state: ProvisionStateView,
}

impl ImageProvisionerView {
    /// What the caller is asked to do in this state.
    pub open spec fn pending(self) -> ProvisionActionView {
        match self.state {
            ProvisionStateView::CreatingDirs => ProvisionActionView::CreateDir {
                path: files_dir(self.dir),
            },
            ProvisionStateView::WritingDockerfile => ProvisionActionView::WriteDockerfile {
                path: dockerfile_path(self.dir),
            },
            ProvisionStateView::UnpackingTools => ProvisionActionView::UnpackTools {
                directory: files_dir(self.dir),
            },
            ProvisionStateView::Building => ProvisionActionView::Run(
                twoliter_build(self.sdk, self.dir).invocation(),
            ),
            ProvisionStateView::Finished(result) => ProvisionActionView::Finish(result),
        }
    }

    /// The state that follows on an event. An event that does not answer what
    /// was asked changes nothing. A failure while the scratch directory is
    /// laid out, and a failure of the build, end the attempt; each is told
    /// with what was being done around it.
    pub open spec fn next_state(self, event: ProvisionEventView) -> ProvisionStateView {
        match (self.state, event) {
            (ProvisionStateView::CreatingDirs, ProvisionEventView::Done) =>
                ProvisionStateView::WritingDockerfile,
            (ProvisionStateView::CreatingDirs, ProvisionEventView::Failed(reason)) =>
                ProvisionStateView::Finished(
                Err(
                    fs_error(FsOperation::CreateDir, files_dir(self.dir), reason).context(
                        PREPARE_CONTEXT@,
                    ),
                ),
            ),
            (ProvisionStateView::WritingDockerfile, ProvisionEventView::Done) =>
                ProvisionStateView::UnpackingTools,
            (ProvisionStateView::WritingDockerfile, ProvisionEventView::Failed(reason)) =>
                ProvisionStateView::Finished(
                Err(
                    fs_error(FsOperation::Write, dockerfile_path(self.dir), reason).context(
                        PREPARE_CONTEXT@,
                    ),
                ),
            ),
            (ProvisionStateView::UnpackingTools, ProvisionEventView::Done) =>
                ProvisionStateView::Building,
            (ProvisionStateView::UnpackingTools, ProvisionEventView::Failed(reason)) =>
                ProvisionStateView::Finished(
                Err(unpack_error(files_dir(self.dir), reason).context(PREPARE_CONTEXT@)),
            ),
            (ProvisionStateView::Building, ProvisionEventView::Ran { command, mode, ended }) =>
                match exec_outcome(command, mode, ended) {
                Ok(()) => ProvisionStateView::Finished(Ok(twoliter_image())),
                Err(error) => ProvisionStateView::Finished(Err(error.context(BUILD_CONTEXT@))),
            },
            _ => self.state,
        }
    }

    /// The attempt after an event.
    pub open spec fn next(self, event: ProvisionEventView) -> ImageProvisionerView {
        ImageProvisionerView { state: self.next_state(event), ..self }
    }
}

/// The making of the image of the build environment.
#[derive(Debug)]
pub struct ImageProvisioner {
    sdk: ImageArchUri,
    dir: String,
    state: ProvisionState,
}

impl View for ImageProvisioner {
    type V = ImageProvisionerView;

    closed spec fn view(&self) -> ImageProvisionerView {
        ImageProvisionerView { sdk: self.sdk@, dir: self.dir@, state: self.state.deep_view() }
    }
}

impl ImageProvisioner {
    /// The making of the image from the toolchain image `sdk`, in the scratch
    /// directory `dir`, which has not begun.
    pub fn new(sdk: &ImageArchUri, dir: &str) -> (r: Self)
        ensures
            r@ == (ImageProvisionerView {
                sdk: sdk@,
                dir: dir@,
                state: ProvisionStateView::CreatingDirs,
            }),
    {
        ImageProvisioner {
            sdk: sdk.clone(),
            dir: String::from_str(dir),
            state: ProvisionState::CreatingDirs,
        }
    }

    /// The image that is built.
    pub fn image() -> (r: ImageUri)
        ensures
            r@ == twoliter_image(),
    {
        ImageUri::new(None, IMAGE_REPO, IMAGE_TAG)
    }

    /// The directory that is handed to the build.
    pub fn context_dir(&self) -> (r: String)
        ensures
            r@ == context_dir(self@.dir),
    {
        join_path(self.dir.as_str(), CONTEXT)
    }

    /// The directory that holds the tools.
    pub fn files_dir(&self) -> (r: String)
        ensures
            r@ == files_dir(self@.dir),
    {
        join_path(self.context_dir().as_str(), FILES)
    }

    /// The file that defines the image.
    pub fn dockerfile_path(&self) -> (r: String)
        ensures
            r@ == dockerfile_path(self@.dir),
    {
        join_path(self.dir.as_str(), DOCKERFILE)
    }

    /// The build of the image.
    pub fn build(&self) -> (r: DockerBuild)
        ensures
            r@ == twoliter_build(self@.sdk, self@.dir),
    {
        proof {
            reveal(Seq::filter);
        }
        let build = DockerBuild::default().dockerfile(self.dockerfile_path().as_str()).context_dir(
            self.context_dir().as_str(),
        ).build_arg(BASE_ARG, self.sdk.uri().as_str()).tag(Self::image());
        assert(build@.build_args =~= seq![(BASE_ARG@, self@.sdk.uri())]);
        build
    }

    /// What the caller is asked to do now.
    pub fn pending(&self) -> (r: ProvisionAction)
        ensures
            r.deep_view() == self@.pending(),
    {
        match &self.state {
            ProvisionState::CreatingDirs => ProvisionAction::CreateDir { path: self.files_dir() },
            ProvisionState::WritingDockerfile => ProvisionAction::WriteDockerfile {
                path: self.dockerfile_path(),
            },
            ProvisionState::UnpackingTools => ProvisionAction::UnpackTools {
                directory: self.files_dir(),
            },
            ProvisionState::Building => ProvisionAction::Run(self.build().invocation()),
            ProvisionState::Finished(result) => ProvisionAction::Finish(
                match result {
                    Ok(image) => Ok(image.clone()),
                    Err(error) => Err(error.clone()),
                },
            ),
        }
    }

    /// Takes in how the step went that was pending.
    pub fn step(&mut self, event: ProvisionEvent)
        ensures
            final(self)@ == old(self)@.next(event.deep_view()),
    {
        let next = match (&self.state, event) {
            (ProvisionState::CreatingDirs, ProvisionEvent::Done) => Some(
                ProvisionState::WritingDockerfile,
            ),
            (ProvisionState::CreatingDirs, ProvisionEvent::Failed(reason)) => Some(
                ProvisionState::Finished(
                    Err(
                        Error::filesystem(FsOperation::CreateDir, self.files_dir(), reason).context(
                            PREPARE_CONTEXT,
                        ),
                    ),
                ),
            ),
            (ProvisionState::WritingDockerfile, ProvisionEvent::Done) => Some(
                ProvisionState::UnpackingTools,
            ),
            (ProvisionState::WritingDockerfile, ProvisionEvent::Failed(reason)) => Some(
                ProvisionState::Finished(
                    Err(
                        Error::filesystem(FsOperation::Write, self.dockerfile_path(), reason).context(
                            PREPARE_CONTEXT,
                        ),
                    ),
                ),
            ),
            (ProvisionState::UnpackingTools, ProvisionEvent::Done) => Some(
                ProvisionState::Building,
            ),
            (ProvisionState::UnpackingTools, ProvisionEvent::Failed(reason)) => Some(
                ProvisionState::Finished(
                    Err(Error::corrupt_bundle(self.files_dir(), reason).context(PREPARE_CONTEXT)),
                ),
            ),
            (ProvisionState::Building, ProvisionEvent::Ran { command, mode, ended }) => {
                match exec_result(command.as_str(), mode, ended) {
                    Ok(()) => Some(ProvisionState::Finished(Ok(Self::image()))),
                    Err(error) => Some(
                        ProvisionState::Finished(Err(error.context(BUILD_CONTEXT))),
                    ),
                }
            },
            _ => None,
        };
        match next {
            Some(state) => {
                assert(state.deep_view() == self@.next_state(event.deep_view()));
                self.state = state;
            },
            None => {},
        }
    }
}

/// The states through which the image is made when every step succeeds and
/// the build ends as `ended` says: at the start, after the directories are
/// there, after the definition was written, after the tools were unpacked,
/// and after the build was run.
pub open spec fn provision_run(
    sdk: ImageArchUriView,
    dir: Seq<char>,
    command: Seq<char>,
    mode: OutputMode,
    ended: Result<ProcessOutputView, Seq<char>>,
) -> Seq<ImageProvisionerView> {
    let s0 = ImageProvisionerView { sdk, dir, state: ProvisionStateView::CreatingDirs };
    let s1 = s0.next(ProvisionEventView::Done);
    let s2 = s1.next(ProvisionEventView::Done);
    let s3 = s2.next(ProvisionEventView::Done);
    let s4 = s3.next(ProvisionEventView::Ran { command, mode, ended });
    seq![s0, s1, s2, s3, s4]
}

/// The image is always built: nothing is looked for before the build, and
/// whatever the toolchain image, the steps are the same four in the same
/// order. The build names the toolchain image as `BASE`, and where the build
/// succeeds the result is the image's fixed name.
pub proof fn provision_always_builds(
    sdk: ImageArchUriView,
    dir: Seq<char>,
    command: Seq<char>,
    mode: OutputMode,
    ended: Result<ProcessOutputView, Seq<char>>,
)
    ensures
        ({
            let run = provision_run(sdk, dir, command, mode, ended);
            &&& run[0].pending() == ProvisionActionView::CreateDir { path: files_dir(dir) }
            &&& run[1].pending() == ProvisionActionView::WriteDockerfile {
                path: dockerfile_path(dir),
            }
            &&& run[2].pending() == ProvisionActionView::UnpackTools { directory: files_dir(dir) }
            &&& run[3].pending() == ProvisionActionView::Run(
                twoliter_build(sdk, dir).invocation(),
            )
            &&& twoliter_build(sdk, dir).args() == seq![
                "build"@,
                "--file"@,
                dockerfile_path(dir),
                "--tag"@,
                twoliter_image().uri(),
                "--build-arg="@ + BASE_ARG@ + seq!['='] + sdk.uri(),
                context_dir(dir),
            ]
            &&& (ended matches Ok(output) && output.success) ==> run[4].pending()
                == ProvisionActionView::Finish(Ok(twoliter_image()))
            &&& !(ended matches Ok(output) && output.success) ==> (run[4].pending() matches ProvisionActionView::Finish(
                Err(error),
            ) && error.contexts == seq![BUILD_CONTEXT@])
        }),
{
    assert(twoliter_build(sdk, dir).args() =~= seq![
        "build"@,
        "--file"@,
        dockerfile_path(dir),
        "--tag"@,
        twoliter_image().uri(),
        "--build-arg="@ + BASE_ARG@ + seq!['='] + sdk.uri(),
        context_dir(dir),
    ]);
}

} // verus!

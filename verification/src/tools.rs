//! Installing the tool bundle into a directory, once for each version of the
//! bundle.
//!
//! The library decides; its caller touches the filesystem. The caller asks
//! what is `pending`, does it, and tells with `step` how it went, until the
//! install is finished.

use vstd::prelude::*;
use vstd::string::StringExecFns;
use crate::error::Error;
use crate::error::ErrorView;
use crate::error::fs_error;
use crate::error::unpack_error;
use crate::error::FsOperation;
use crate::error::result_view;
use crate::path::join_path;
use crate::path::joined_path;
use crate::text::same_text;

verus! {

/// The file, in the tools directory, that holds the hash of the bundle that
/// was installed there.
pub const MARKER_FILE: &'static str = ".tools-hash";

/// How an install ended well.
#[derive(Debug, Clone, Copy, PartialEq, Eq, Structural, Hash)]
pub enum Installed {
    /// The directory already held this bundle: nothing was written.
    UpToDate,
    /// The bundle was unpacked and the marker was written.
    Unpacked,
}

impl DeepView for Installed {
    type V = Installed;

    open spec fn deep_view(&self) -> Installed {
        *self
    }
}

/// How far an install has come.
#[derive(Debug)]
pub enum InstallState {
    CreatingDir,
    ReadingMarker,
    Unpacking,
    WritingMarker,
    Finished(Result<Installed, Error>),
}

/// What an `InstallState` stands for.
pub enum InstallStateView {
    CreatingDir,
    ReadingMarker,
    Unpacking,
    WritingMarker,
    Finished(Result<Installed, ErrorView>),
}

impl DeepView for InstallState {
    type V = InstallStateView;

    open spec fn deep_view(&self) -> InstallStateView {
        match self {
            InstallState::CreatingDir => InstallStateView::CreatingDir,
            InstallState::ReadingMarker => InstallStateView::ReadingMarker,
            InstallState::Unpacking => InstallStateView::Unpacking,
            InstallState::WritingMarker => InstallStateView::WritingMarker,
            InstallState::Finished(result) => InstallStateView::Finished(result_view(*result)),
        }
    }
}

/// What the caller tells of the step it was asked to take.
#[derive(Debug)]
pub enum InstallEvent {
    /// The step was taken.
    Done,
    /// The step failed, for this reason.
    Failed(String),
    /// The marker was looked for: what it holds, or nothing where there is
    /// none.
    Marker(Option<String>),
}

/// What an `InstallEvent` stands for.
pub enum InstallEventView {
    Done,
    Failed(Seq<char>),
    Marker(Option<Seq<char>>),
}

impl DeepView for InstallEvent {
    type V = InstallEventView;

    open spec fn deep_view(&self) -> InstallEventView {
        match self {
            InstallEvent::Done => InstallEventView::Done,
            InstallEvent::Failed(reason) => InstallEventView::Failed(reason@),
            InstallEvent::Marker(marker) => InstallEventView::Marker(marker.deep_view()),
        }
    }
}

/// What the caller is asked to do next.
#[derive(Debug)]
pub enum InstallAction {
    /// Create the directory, and those above it, unless they are there.
    CreateDir { path: String },
    /// Read the marker file, if there is one.
    ReadMarker { path: String },
    /// Unpack the bundle into the directory.
    Unpack { directory: String },
    /// Write the hash to the marker file.
    WriteMarker { path: String, hash: String },
    /// Nothing more: the install has ended, in this way.
    Finish(Result<Installed, Error>),
}

/// What an `InstallAction` stands for.
pub enum InstallActionView {
    CreateDir { path: Seq<char> },
    ReadMarker { path: Seq<char> },
    Unpack { directory: Seq<char> },
    WriteMarker { path: Seq<char>, hash: Seq<char> },
    Finish(Result<Installed, ErrorView>),
}

impl DeepView for InstallAction {
    type V = InstallActionView;

    open spec fn deep_view(&self) -> InstallActionView {
        match self {
            InstallAction::CreateDir { path } => InstallActionView::CreateDir { path: path@ },
            InstallAction::ReadMarker { path } => InstallActionView::ReadMarker { path: path@ },
            InstallAction::Unpack { directory } => InstallActionView::Unpack {
                directory: directory@,
            },
            InstallAction::WriteMarker { path, hash } => InstallActionView::WriteMarker {
                path: path@,
                hash: hash@,
            },
            InstallAction::Finish(result) => InstallActionView::Finish(result_view(*result)),
        }
    }
}

/// Whether an install has work to do: it is forced, or the marker does not
/// hold the hash of this bundle.
pub open spec fn install_needed(marker: Option<Seq<char>>, hash: Seq<char>, force: bool) -> bool {
    force || marker != Some(hash)
}

/// What a `ToolCache` stands for.
pub struct ToolCacheView {
    pub tools_dir: Seq<char>,
    pub bundle_hash: Seq<char>,
    pub force: bool,
    pub state: InstallStateView,
}

impl ToolCacheView {
    /// Where the marker is kept.
    pub open spec fn marker_path(self) -> Seq<char> {
        joined_path(self.tools_dir, MARKER_FILE@)
    }

    /// What the caller is asked to do in this state.
    pub open spec fn pending(self) -> InstallActionView {
        match self.state {
            InstallStateView::CreatingDir => InstallActionView::CreateDir { path: self.tools_dir },
            InstallStateView::ReadingMarker => InstallActionView::ReadMarker {
                path: self.marker_path(),
            },
            InstallStateView::Unpacking => InstallActionView::Unpack { directory: self.tools_dir },
            InstallStateView::WritingMarker => InstallActionView::WriteMarker {
                path: self.marker_path(),
                hash: self.bundle_hash,
            },
            InstallStateView::Finished(result) => InstallActionView::Finish(result),
        }
    }

    /// The state that follows on an event. An event that does not answer what
    /// was asked changes nothing. A marker that could not be read counts as no
    /// marker.
    pub open spec fn next_state(self, event: InstallEventView) -> InstallStateView {
        match (self.state, event) {
            (InstallStateView::CreatingDir, InstallEventView::Done) =>
                InstallStateView::ReadingMarker,
            (InstallStateView::CreatingDir, InstallEventView::Failed(reason)) =>
                InstallStateView::Finished(
                Err(fs_error(FsOperation::CreateDir, self.tools_dir, reason)),
            ),
            (InstallStateView::ReadingMarker, InstallEventView::Marker(marker)) =>
                if install_needed(marker, self.bundle_hash, self.force) {
                InstallStateView::Unpacking
            } else {
                InstallStateView::Finished(Ok(Installed::UpToDate))
            },
            (InstallStateView::ReadingMarker, InstallEventView::Failed(reason)) =>
                InstallStateView::Unpacking,
            (InstallStateView::Unpacking, InstallEventView::Done) =>
                InstallStateView::WritingMarker,
            (InstallStateView::Unpacking, InstallEventView::Failed(reason)) =>
                InstallStateView::Finished(Err(unpack_error(self.tools_dir, reason))),
            (InstallStateView::WritingMarker, InstallEventView::Done) =>
                InstallStateView::Finished(Ok(Installed::Unpacked)),
            (InstallStateView::WritingMarker, InstallEventView::Failed(reason)) =>
                InstallStateView::Finished(
                Err(fs_error(FsOperation::Write, self.marker_path(), reason)),
            ),
            _ => self.state,
        }
    }

    /// The install after an event.
    pub open spec fn next(self, event: InstallEventView) -> ToolCacheView {
        ToolCacheView { state: self.next_state(event), ..self }
    }
}

/// An install of the tool bundle into a directory.
#[derive(Debug)]
pub struct ToolCache {
    tools_dir: String,
    bundle_hash: String,
    force: bool,
    state: InstallState,
}

impl View for ToolCache {
    type V = ToolCacheView;

    closed spec fn view(&self) -> ToolCacheView {
        ToolCacheView {
            tools_dir: self.tools_dir@,
            bundle_hash: self.bundle_hash@,
            force: self.force,
            state: self.state.deep_view(),
        }
    }
}

/// Whether an install has work to do.
pub fn needs_install(marker: &Option<String>, hash: &str, force: bool) -> (r: bool)
    ensures
        r == install_needed(marker.deep_view(), hash@, force),
{
    if force {
        return true;
    }
    match marker {
        Some(found) => !same_text(found.as_str(), hash),
        None => true,
    }
}

impl ToolCache {
    /// An install of the bundle with this hash into `tools_dir`, which has not
    /// begun. With `force` the bundle is unpacked whatever the marker holds.
    pub fn new(tools_dir: &str, bundle_hash: &str, force: bool) -> (r: Self)
        ensures
            r@ == (ToolCacheView {
                tools_dir: tools_dir@,
                bundle_hash: bundle_hash@,
                force,
                state: InstallStateView::CreatingDir,
            }),
    {
        ToolCache {
            tools_dir: String::from_str(tools_dir),
            bundle_hash: String::from_str(bundle_hash),
            force,
            state: InstallState::CreatingDir,
        }
    }

    /// Where the marker is kept.
    pub fn marker_path(&self) -> (r: String)
        ensures
            r@ == self@.marker_path(),
    {
        join_path(self.tools_dir.as_str(), MARKER_FILE)
    }

    /// What the caller is asked to do now.
    pub fn pending(&self) -> (r: InstallAction)
        ensures
            r.deep_view() == self@.pending(),
    {
        match &self.state {
            InstallState::CreatingDir => InstallAction::CreateDir { path: self.tools_dir.clone() },
            InstallState::ReadingMarker => InstallAction::ReadMarker { path: self.marker_path() },
            InstallState::Unpacking => InstallAction::Unpack { directory: self.tools_dir.clone() },
            InstallState::WritingMarker => InstallAction::WriteMarker {
                path: self.marker_path(),
                hash: self.bundle_hash.clone(),
            },
            InstallState::Finished(result) => InstallAction::Finish(
                match result {
                    Ok(installed) => Ok(*installed),
                    Err(error) => Err(error.clone()),
                },
            ),
        }
    }

    /// Takes in how the step went that was pending.
    pub fn step(&mut self, event: InstallEvent)
        ensures
            final(self)@ == old(self)@.next(event.deep_view()),
    {
        let next = match (&self.state, event) {
            (InstallState::CreatingDir, InstallEvent::Done) => Some(InstallState::ReadingMarker),
            (InstallState::CreatingDir, InstallEvent::Failed(reason)) => Some(
                InstallState::Finished(
                    Err(Error::filesystem(FsOperation::CreateDir, self.tools_dir.clone(), reason)),
                ),
            ),
            (InstallState::ReadingMarker, InstallEvent::Marker(marker)) => {
                if needs_install(&marker, self.bundle_hash.as_str(), self.force) {
                    Some(InstallState::Unpacking)
                } else {
                    Some(InstallState::Finished(Ok(Installed::UpToDate)))
                }
            },
            (InstallState::ReadingMarker, InstallEvent::Failed(reason)) => Some(
                InstallState::Unpacking,
            ),
            (InstallState::Unpacking, InstallEvent::Done) => Some(InstallState::WritingMarker),
            (InstallState::Unpacking, InstallEvent::Failed(reason)) => Some(
                InstallState::Finished(
                    Err(Error::corrupt_bundle(self.tools_dir.clone(), reason)),
                ),
            ),
            (InstallState::WritingMarker, InstallEvent::Done) => Some(
                InstallState::Finished(Ok(Installed::Unpacked)),
            ),
            (InstallState::WritingMarker, InstallEvent::Failed(reason)) => Some(
                InstallState::Finished(
                    Err(Error::filesystem(FsOperation::Write, self.marker_path(), reason)),
                ),
            ),
            _ => None,
        };
        match next {
            Some(state) => {
                assert(state.deep_view() == self@.next_state(event.deep_view()));
                self.state = state;
            },
            None => {},
        }
    }
}

/// The states of an install of `hash` into `tools_dir` in which every step
/// succeeds and the marker is found to hold `marker`: at the start, after the
/// directory is there, after the marker was read, after the bundle was
/// unpacked, and after the marker was written.
pub open spec fn install_run(
    tools_dir: Seq<char>,
    hash: Seq<char>,
    force: bool,
    marker: Option<Seq<char>>,
) -> Seq<ToolCacheView> {
    let s0 = ToolCacheView {
        tools_dir,
        bundle_hash: hash,
        force,
        state: InstallStateView::CreatingDir,
    };
    let s1 = s0.next(InstallEventView::Done);
    let s2 = s1.next(InstallEventView::Marker(marker));
    let s3 = s2.next(InstallEventView::Done);
    let s4 = s3.next(InstallEventView::Done);
    seq![s0, s1, s2, s3, s4]
}

/// An install that is not forced, into a directory whose marker holds the
/// bundle's hash, writes nothing to the directory's files: once the directory
/// is seen to be there and the marker is read, it is finished, and neither
/// unpacking nor the writing of the marker was ever asked for.
pub proof fn up_to_date_install_writes_nothing(tools_dir: Seq<char>, hash: Seq<char>)
    ensures
        ({
            let run = install_run(tools_dir, hash, false, Some(hash));
            &&& run[0].pending() == InstallActionView::CreateDir { path: tools_dir }
            &&& run[1].pending() == InstallActionView::ReadMarker { path: run[0].marker_path() }
            &&& run[2].pending() == InstallActionView::Finish(Ok(Installed::UpToDate))
            &&& run[3] == run[2]
            &&& run[4] == run[2]
        }),
{
}

/// An install into a directory whose marker holds another hash, or that has
/// no marker, unpacks the bundle and then writes the bundle's hash to the
/// marker, whether it is forced or not.
pub proof fn changed_hash_reinstalls(
    tools_dir: Seq<char>,
    hash: Seq<char>,
    force: bool,
    marker: Option<Seq<char>>,
)
    requires
        marker != Some(hash),
    ensures
        ({
            let run = install_run(tools_dir, hash, force, marker);
            &&& run[2].pending() == InstallActionView::Unpack { directory: tools_dir }
            &&& run[3].pending() == InstallActionView::WriteMarker {
                path: run[0].marker_path(),
                hash,
            }
            &&& run[4].pending() == InstallActionView::Finish(Ok(Installed::Unpacked))
        }),
{
}

/// The marker is written only after the bundle was unpacked: an event leads
/// to the state in which the marker is to be written only from the state in
/// which the bundle is being unpacked, and only when that step was taken.
pub proof fn marker_follows_unpack(cache: ToolCacheView, event: InstallEventView)
    requires
        cache.next(event).state == InstallStateView::WritingMarker,
        cache.state != InstallStateView::WritingMarker,
    ensures
        cache.state == InstallStateView::Unpacking,
        event == InstallEventView::Done,
{
}

/// The bundle is unpacked only where the install has work to do: an event
/// leads to the state in which the bundle is to be unpacked only from the
/// state in which the marker is being read, and only when the marker could
/// not be read or shows that the install is needed.
pub proof fn unpack_follows_need(cache: ToolCacheView, event: InstallEventView)
    requires
        cache.next(event).state == InstallStateView::Unpacking,
        cache.state != InstallStateView::Unpacking,
    ensures
        cache.state == InstallStateView::ReadingMarker,
        event is Failed || (event matches InstallEventView::Marker(marker) && install_needed(
            marker,
            cache.bundle_hash,
            cache.force,
        )),
{
}

/// An install that has finished stays as it is, whatever it is told.
pub proof fn finished_install_stays(cache: ToolCacheView, event: InstallEventView)
    requires
        cache.state is Finished,
    ensures
        cache.next(event) == cache,
{
}

} // verus!

//! Which host paths are bound into the build container.
//!
//! The project directory always is. Each path that the caller declares is
//! looked at in turn: one that is there is mounted; one that is absent is
//! created, passed over or refused, by its place and its policy. The library
//! decides; its caller touches the filesystem. The caller asks what is
//! `pending`, does it, and tells with `step` how it went, until the plan is
//! finished.

use vstd::prelude::*;
use vstd::string::StringExecFns;
use crate::docker::commands::MountType;
use crate::docker::commands::MountView;
use crate::docker::commands::_Mount;
use crate::error::Error;
use crate::error::ErrorView;
use crate::error::FsOperation;
use crate::error::fs_error;
use crate::error::result_view;
use crate::error::unresolved;
use crate::path::is_within;
use crate::path::parent_dir;
use crate::path::parent_text;
use crate::path::path_within;
use crate::text::same_text;
use crate::text::strip_prefix;

verus! {

/// Whether a path names a file or a directory.
#[derive(Debug, Clone, Copy, PartialEq, Eq, Structural, Hash)]
pub enum PathKind {
    File,
    Dir,
}

/// What is done about a declared path that is absent.
#[derive(Debug, Clone, Copy, PartialEq, Eq, Structural, Hash)]
pub enum CreatePolicy {
    /// It is created, unless it lies inside the project.
    Create,
    /// It is never created.
    MustExist,
}

/// A host path that the build may need, with what it is and what is done
/// where it is absent.
#[derive(Debug)]
pub struct DeclaredPath {
    pub path: String,
    pub kind: PathKind,
    pub create: CreatePolicy,
}

/// What a `DeclaredPath` stands for.
pub struct DeclaredPathView {
    pub path: Seq<char>,
    pub kind: PathKind,
    pub create: CreatePolicy,
}

impl DeepView for DeclaredPath {
    type V = DeclaredPathView;

    open spec fn deep_view(&self) -> DeclaredPathView {
        DeclaredPathView { path: self.path@, kind: self.kind, create: self.create }
    }
}

impl View for DeclaredPath {
    type V = DeclaredPathView;

    open spec fn view(&self) -> DeclaredPathView {
        self.deep_view()
    }
}

impl Clone for DeclaredPath {
    fn clone(&self) -> (r: Self)
        ensures
            r@ == self@,
    {
        DeclaredPath { path: self.path.clone(), kind: self.kind, create: self.create }
    }
}

/// A host path that is bound into the container, and where.
#[derive(Debug)]
pub struct MountSpec {
    pub source: String,
    pub destination: String,
    pub kind: PathKind,
    pub read_only: bool,
}

/// What a `MountSpec` stands for.
pub struct MountSpecView {
    pub source: Seq<char>,
    pub destination: Seq<char>,
    pub kind: PathKind,
    pub read_only: bool,
}

impl DeepView for MountSpec {
    type V = MountSpecView;

    open spec fn deep_view(&self) -> MountSpecView {
        MountSpecView {
            source: self.source@,
            destination: self.destination@,
            kind: self.kind,
            read_only: self.read_only,
        }
    }
}

impl View for MountSpec {
    type V = MountSpecView;

    open spec fn view(&self) -> MountSpecView {
        self.deep_view()
    }
}

impl Clone for MountSpec {
    fn clone(&self) -> (r: Self)
        ensures
            r@ == self@,
    {
        MountSpec {
            source: self.source.clone(),
            destination: self.destination.clone(),
            kind: self.kind,
            read_only: self.read_only,
        }
    }
}

impl MountSpecView {
    /// The mount as the container tool takes it: a bind mount of the source
    /// at the destination.
    pub open spec fn mount(self) -> MountView {
        MountView {
            mount_type: MountType::Bind,
            source: self.source,
            destination: self.destination,
            read_only: self.read_only,
        }
    }
}

impl MountSpec {
    /// The mount as the container tool takes it.
    pub fn mount(&self) -> (r: _Mount)
        ensures
            r@ == self@.mount(),
    {
        _Mount {
            _type: MountType::Bind,
            _source: self.source.clone(),
            _destination: self.destination.clone(),
            _read_only: self.read_only,
        }
    }
}

/// The mount of a canonical path: at the same place inside the container as
/// outside, and writable.
pub open spec fn mount_of(source: Seq<char>, kind: PathKind) -> MountSpecView {
    MountSpecView { source, destination: source, kind, read_only: false }
}

/// Whether one of the mounts has this source.
pub open spec fn has_source(mounts: Seq<MountSpecView>, source: Seq<char>) -> bool {
    exists|i: int| 0 <= i < mounts.len() && #[trigger] mounts[i].source == source
}

/// No source occurs twice.
pub open spec fn distinct_sources(mounts: Seq<MountSpecView>) -> bool {
    forall|i: int, j: int| 0 <= i < j < mounts.len() ==> mounts[i].source != mounts[j].source
}

/// The mounts with one more for the source, unless the source is mounted
/// already.
pub open spec fn with_mount(mounts: Seq<MountSpecView>, source: Seq<char>, kind: PathKind) -> Seq<
    MountSpecView,
> {
    if has_source(mounts, source) {
        mounts
    } else {
        mounts.push(mount_of(source, kind))
    }
}

/// What is done about one declared path.
#[derive(Debug)]
pub enum Resolution {
    /// The path is there: it is mounted as it is.
    Mount { path: String, kind: PathKind },
    /// The directory is created and then mounted.
    CreateAndMount { directory: String },
    /// Nothing: the path is absent and lies inside the project, whose mount
    /// covers it.
    Skip,
    /// The plan fails.
    Fail(Error),
}

/// What a `Resolution` stands for.
pub enum ResolutionView {
    Mount { path: Seq<char>, kind: PathKind },
    CreateAndMount { directory: Seq<char> },
    Skip,
    Fail(ErrorView),
}

impl DeepView for Resolution {
    type V = ResolutionView;

    open spec fn deep_view(&self) -> ResolutionView {
        match self {
            Resolution::Mount { path, kind } => ResolutionView::Mount { path: path@, kind: *kind },
            Resolution::CreateAndMount { directory } => ResolutionView::CreateAndMount {
                directory: directory@,
            },
            Resolution::Skip => ResolutionView::Skip,
            Resolution::Fail(error) => ResolutionView::Fail(error@),
        }
    }
}

/// What is done about a declared path.
///
/// 1. One that is there is mounted as it is.
/// 2. One that is absent, is to be created and lies outside the project is
///    created: for a file its parent directory is created and mounted, for a
///    directory the directory itself. A file without a parent cannot be
///    mounted.
/// 3. One that is absent and lies inside the project is passed over: the
///    project's mount covers it.
/// 4. One that is absent, lies outside the project and is not to be created
///    cannot be mounted.
pub open spec fn resolution(project_dir: Seq<char>, declared: DeclaredPathView, exists: bool)
    -> ResolutionView {
    let inside = path_within(declared.path, project_dir);
    if exists {
        ResolutionView::Mount { path: declared.path, kind: declared.kind }
    } else if declared.create == CreatePolicy::Create && !inside {
        match declared.kind {
            PathKind::Dir => ResolutionView::CreateAndMount { directory: declared.path },
            PathKind::File => match parent_text(declared.path) {
                Some(parent) => ResolutionView::CreateAndMount { directory: parent },
                None => ResolutionView::Fail(unresolved(declared.path)),
            },
        }
    } else if inside {
        ResolutionView::Skip
    } else {
        ResolutionView::Fail(unresolved(declared.path))
    }
}

/// Says what is done about a declared path, given the project directory and
/// whether the path is there.
pub fn resolve(project_dir: &str, declared: &DeclaredPath, exists: bool) -> (r: Resolution)
    ensures
        r.deep_view() == resolution(project_dir@, declared@, exists),
{
    if exists {
        return Resolution::Mount { path: declared.path.clone(), kind: declared.kind };
    }
    let inside = is_within(declared.path.as_str(), project_dir);
    let create = match declared.create {
        CreatePolicy::Create => true,
        CreatePolicy::MustExist => false,
    };
    if create && !inside {
        match declared.kind {
            PathKind::Dir => Resolution::CreateAndMount { directory: declared.path.clone() },
            PathKind::File => match parent_dir(declared.path.as_str()) {
                Some(parent) => Resolution::CreateAndMount { directory: parent },
                None => Resolution::Fail(Error::unresolved_path(declared.path.clone())),
            },
        }
    } else if inside {
        Resolution::Skip
    } else {
        Resolution::Fail(Error::unresolved_path(declared.path.clone()))
    }
}

/// How far the plan has come.
#[derive(Debug)]
pub enum PlanState {
    /// The project directory is being made canonical.
    Locating,
    /// The declared path at hand is being looked for.
    Probing,
    /// A directory is being created for the declared path at hand.
    Creating { directory: String },
    /// The path that is to be mounted is being made canonical.
    Canonicalizing { path: String, kind: PathKind },
    /// The plan has ended: well, or with an error.
    Finished(Option<Error>),
}

/// What a `PlanState` stands for.
pub enum PlanStateView {
    Locating,
    Probing,
    Creating { directory: Seq<char> },
    Canonicalizing { path: Seq<char>, kind: PathKind },
    Finished(Option<ErrorView>),
}

impl DeepView for PlanState {
    type V = PlanStateView;

    open spec fn deep_view(&self) -> PlanStateView {
        match self {
            PlanState::Locating => PlanStateView::Locating,
            PlanState::Probing => PlanStateView::Probing,
            PlanState::Creating { directory } => PlanStateView::Creating { directory: directory@ },
            PlanState::Canonicalizing { path, kind } => PlanStateView::Canonicalizing {
                path: path@,
                kind: *kind,
            },
            PlanState::Finished(error) => PlanStateView::Finished(error.deep_view()),
        }
    }
}

/// What the caller tells of the step it was asked to take.
#[derive(Debug)]
pub enum PlanEvent {
    /// The step was taken.
    Done,
    /// The step failed, for this reason.
    Failed(String),
    /// Whether the path is there.
    Exists(bool),
    /// The canonical form of the path.
    Canonical(String),
}

/// What a `PlanEvent` stands for.
pub enum PlanEventView {
    Done,
    Failed(Seq<char>),
    Exists(bool),
    Canonical(Seq<char>),
}

impl DeepView for PlanEvent {
    type V = PlanEventView;

    open spec fn deep_view(&self) -> PlanEventView {
        match self {
            PlanEvent::Done => PlanEventView::Done,
            PlanEvent::Failed(reason) => PlanEventView::Failed(reason@),
            PlanEvent::Exists(exists) => PlanEventView::Exists(*exists),
            PlanEvent::Canonical(path) => PlanEventView::Canonical(path@),
        }
    }
}

/// What the caller is asked to do next.
#[derive(Debug)]
pub enum PlanAction {
    /// Make the path canonical.
    Canonicalize { path: String },
    /// Say whether the path is there.
    Probe { path: String },
    /// Create the directory, and those above it, unless they are there.
    CreateDir { path: String },
    /// Nothing more: these are the mounts, or the plan has failed.
    Finish(Result<Vec<MountSpec>, Error>),
}

/// What a `PlanAction` stands for.
pub enum PlanActionView {
    Canonicalize { path: Seq<char> },
    Probe { path: Seq<char> },
    CreateDir { path: Seq<char> },
    Finish(Result<Seq<MountSpecView>, ErrorView>),
}

impl DeepView for PlanAction {
    type V = PlanActionView;

    open spec fn deep_view(&self) -> PlanActionView {
        match self {
            PlanAction::Canonicalize { path } => PlanActionView::Canonicalize { path: path@ },
            PlanAction::Probe { path } => PlanActionView::Probe { path: path@ },
            PlanAction::CreateDir { path } => PlanActionView::CreateDir { path: path@ },
            PlanAction::Finish(result) => PlanActionView::Finish(result_view(*result)),
        }
    }
}

/// What a `MountPlanner` stands for: the project directory, canonical once it
/// was located; the declared paths; how many of them are dealt with; the
/// mounts so far; and the state.
pub struct MountPlannerView {
    pub project_dir: Seq<char>,
    pub declared: Seq<DeclaredPathView>,
    pub at: nat,
    pub mounts: Seq<MountSpecView>,
    pub state: PlanStateView,
}

impl MountPlannerView {
    /// Whether the plan hangs together: the path at hand is one of the
    /// declared paths while one is at hand, and no source is mounted twice.
    pub open spec fn wf(self) -> bool {
        &&& self.at <= self.declared.len()
        &&& (self.state is Probing || self.state is Creating || self.state is Canonicalizing)
            ==> self.at < self.declared.len()
        &&& distinct_sources(self.mounts)
    }

    /// The state in which the declared path at place `at` is taken up: it is
    /// looked for, or the plan is finished where there is none.
    pub open spec fn state_at(self, at: nat) -> PlanStateView {
        if at < self.declared.len() {
            PlanStateView::Probing
        } else {
            PlanStateView::Finished(None)
        }
    }

    /// The plan once the path at hand is dealt with.
    pub open spec fn advance(self) -> MountPlannerView {
        MountPlannerView { at: self.at + 1, state: self.state_at(self.at + 1), ..self }
    }

    /// What the caller is asked to do in this state.
    pub open spec fn pending(self) -> PlanActionView {
        match self.state {
            PlanStateView::Locating => PlanActionView::Canonicalize { path: self.project_dir },
            PlanStateView::Probing => PlanActionView::Probe {
                path: self.declared[self.at as int].path,
            },
            PlanStateView::Creating { directory } => PlanActionView::CreateDir { path: directory },
            PlanStateView::Canonicalizing { path, kind } => PlanActionView::Canonicalize { path },
            PlanStateView::Finished(None) => PlanActionView::Finish(Ok(self.mounts)),
            PlanStateView::Finished(Some(error)) => PlanActionView::Finish(Err(error)),
        }
    }

    /// The plan after an event. An event that does not answer what was asked
    /// changes nothing. Once the project directory is canonical it is mounted,
    /// and the declared paths are taken up in their order. A canonical path is
    /// mounted unless it is mounted already. A step that fails ends the plan.
    pub open spec fn next(self, event: PlanEventView) -> MountPlannerView {
        match (self.state, event) {
            (PlanStateView::Locating, PlanEventView::Canonical(canonical)) => MountPlannerView {
                project_dir: canonical,
                mounts: seq![mount_of(canonical, PathKind::Dir)],
                at: 0,
                state: self.state_at(0),
                ..self
            },
            (PlanStateView::Locating, PlanEventView::Failed(reason)) => MountPlannerView {
                state: PlanStateView::Finished(
                    Some(fs_error(FsOperation::Canonicalize, self.project_dir, reason)),
                ),
                ..self
            },
            (PlanStateView::Probing, PlanEventView::Exists(exists)) => match resolution(
                self.project_dir,
                self.declared[self.at as int],
                exists,
            ) {
                ResolutionView::Mount { path, kind } => MountPlannerView {
                    state: PlanStateView::Canonicalizing { path, kind },
                    ..self
                },
                ResolutionView::CreateAndMount { directory } => MountPlannerView {
                    state: PlanStateView::Creating { directory },
                    ..self
                },
                ResolutionView::Skip => self.advance(),
                ResolutionView::Fail(error) => MountPlannerView {
                    state: PlanStateView::Finished(Some(error)),
                    ..self
                },
            },
            (PlanStateView::Creating { directory }, PlanEventView::Done) => MountPlannerView {
                state: PlanStateView::Canonicalizing { path: directory, kind: PathKind::Dir },
                ..self
            },
            (PlanStateView::Creating { directory }, PlanEventView::Failed(reason)) =>
                MountPlannerView {
                state: PlanStateView::Finished(
                    Some(fs_error(FsOperation::CreateDir, directory, reason)),
                ),
                ..self
            },
            (PlanStateView::Canonicalizing { path, kind }, PlanEventView::Canonical(canonical)) =>
                (MountPlannerView { mounts: with_mount(self.mounts, canonical, kind), ..self })
                .advance(),
            (PlanStateView::Canonicalizing { path, kind }, PlanEventView::Failed(reason)) =>
                MountPlannerView {
                state: PlanStateView::Finished(
                    Some(fs_error(FsOperation::Canonicalize, path, reason)),
                ),
                ..self
            },
            _ => self,
        }
    }
}

/// A plan that hangs together still does after an event: above all, no source
/// is ever mounted twice.
pub proof fn plan_stays_well_formed(plan: MountPlannerView, event: PlanEventView)
    requires
        plan.wf(),
    ensures
        plan.next(event).wf(),
{
    match (plan.state, event) {
        (PlanStateView::Canonicalizing { path, kind }, PlanEventView::Canonical(canonical)) => {
            let after = with_mount(plan.mounts, canonical, kind);
            if !has_source(plan.mounts, canonical) {
                assert forall|i: int, j: int| 0 <= i < j < after.len() implies after[i].source
                    != after[j].source by {
                    assert(after[i] == plan.mounts[i]);
                    if j < plan.mounts.len() {
                        assert(after[j] == plan.mounts[j]);
                    }
                }
            }
        },
        _ => {},
    }
}

/// The plan of the mounts of one build.
#[derive(Debug)]
pub struct MountPlanner {
    project_dir: String,
    declared: Vec<DeclaredPath>,
    at: usize,
    mounts: Vec<MountSpec>,
    state: PlanState,
}

impl View for MountPlanner {
    type V = MountPlannerView;

    closed spec fn view(&self) -> MountPlannerView {
        MountPlannerView {
            project_dir: self.project_dir@,
            declared: self.declared.deep_view(),
            at: self.at as nat,
            mounts: self.mounts.deep_view(),
            state: self.state.deep_view(),
        }
    }
}

/// A copy of the mounts.
fn copy_mounts(mounts: &Vec<MountSpec>) -> (r: Vec<MountSpec>)
    ensures
        r.deep_view() == mounts.deep_view(),
{
    let mut out: Vec<MountSpec> = Vec::new();
    let mut i: usize = 0;
    while i < mounts.len()
        invariant
            i <= mounts.len(),
            out.deep_view() == mounts.deep_view().take(i as int),
        decreases mounts.len() - i,
    {
        let ghost before = out.deep_view();
        out.push(mounts[i].clone());
        assert(out.deep_view() =~= before.push(mounts[i as int]@));
        assert(mounts.deep_view().take(i + 1) =~= mounts.deep_view().take(i as int).push(
            mounts[i as int]@,
        ));
        i += 1;
    }
    assert(mounts.deep_view().take(i as int) =~= mounts.deep_view());
    out
}

/// Whether one of the mounts has this source.
fn mounts_have(mounts: &Vec<MountSpec>, source: &str) -> (r: bool)
    ensures
        r == has_source(mounts.deep_view(), source@),
{
    let mut i: usize = 0;
    while i < mounts.len()
        invariant
            i <= mounts.len(),
            forall|j: int| 0 <= j < i ==> (#[trigger] mounts.deep_view()[j]).source != source@,
        decreases mounts.len() - i,
    {
        if same_text(mounts[i].source.as_str(), source) {
            assert(mounts.deep_view()[i as int].source == source@);
            return true;
        }
        i += 1;
    }
    false
}

/// Adds the mount of a canonical path, unless the path is mounted already.
fn add_mount(mounts: &mut Vec<MountSpec>, source: &str, kind: PathKind)
    ensures
        final(mounts).deep_view() == with_mount(old(mounts).deep_view(), source@, kind),
{
    if !mounts_have(mounts, source) {
        let ghost before = mounts.deep_view();
        mounts.push(
            MountSpec {
                source: String::from_str(source),
                destination: String::from_str(source),
                kind,
                read_only: false,
            },
        );
        assert(mounts.deep_view() =~= before.push(mount_of(source@, kind)));
    }
}

impl MountPlanner {
    #[verifier::type_invariant]
    closed spec fn well_formed(&self) -> bool {
        self@.wf()
    }

    /// The plan for a project and its declared paths, which has not begun.
    pub fn new(project_dir: &str, declared: Vec<DeclaredPath>) -> (r: Self)
        ensures
            r@ == (MountPlannerView {
                project_dir: project_dir@,
                declared: declared.deep_view(),
                at: 0,
                mounts: Seq::empty(),
                state: PlanStateView::Locating,
            }),
            r@.wf(),
    {
        let r = MountPlanner {
            project_dir: String::from_str(project_dir),
            declared,
            at: 0,
            mounts: Vec::new(),
            state: PlanState::Locating,
        };
        assert(r.mounts.deep_view() =~= Seq::<MountSpecView>::empty());
        r
    }

    /// What the caller is asked to do now. Where that is to end, the mounts
    /// hold no source twice.
    pub fn pending(&self) -> (r: PlanAction)
        ensures
            r.deep_view() == self@.pending(),
            self@.wf(),
            r matches PlanAction::Finish(Ok(mounts)) ==> distinct_sources(mounts.deep_view()),
    {
        proof {
            use_type_invariant(self);
        }
        match &self.state {
            PlanState::Locating => PlanAction::Canonicalize { path: self.project_dir.clone() },
            PlanState::Probing => PlanAction::Probe { path: self.declared[self.at].path.clone() },
            PlanState::Creating { directory } => PlanAction::CreateDir { path: directory.clone() },
            PlanState::Canonicalizing { path, kind } => PlanAction::Canonicalize {
                path: path.clone(),
            },
            PlanState::Finished(None) => PlanAction::Finish(Ok(copy_mounts(&self.mounts))),
            PlanState::Finished(Some(error)) => PlanAction::Finish(Err(error.clone())),
        }
    }

    /// Takes in how the step went that was pending.
    pub fn step(&mut self, event: PlanEvent)
        ensures
            final(self)@ == old(self)@.next(event.deep_view()),
            final(self)@.wf(),
    {
        proof {
            use_type_invariant(&*self);
            plan_stays_well_formed(self@, event.deep_view());
        }
        let count = self.declared.len();
        match (&self.state, event) {
            (PlanState::Locating, PlanEvent::Canonical(canonical)) => {
                let mut mounts: Vec<MountSpec> = Vec::new();
                add_mount(&mut mounts, canonical.as_str(), PathKind::Dir);
                assert(mounts.deep_view() =~= seq![mount_of(canonical@, PathKind::Dir)]);
                self.at = 0;
                self.mounts = mounts;
                self.project_dir = canonical;
                if count == 0 {
                    self.state = PlanState::Finished(None);
                } else {
                    self.state = PlanState::Probing;
                }
            },
            (PlanState::Locating, PlanEvent::Failed(reason)) => {
                let error = Error::filesystem(FsOperation::Canonicalize, self.project_dir.clone(), reason);
                self.state = PlanState::Finished(Some(error));
            },
            (PlanState::Probing, PlanEvent::Exists(exists)) => {
                let resolved = resolve(self.project_dir.as_str(), &self.declared[self.at], exists);
                match resolved {
                    Resolution::Mount { path, kind } => {
                        self.state = PlanState::Canonicalizing { path, kind };
                    },
                    Resolution::CreateAndMount { directory } => {
                        self.state = PlanState::Creating { directory };
                    },
                    Resolution::Skip => {
                        if self.at + 1 >= count {
                            self.state = PlanState::Finished(None);
                        }
                        self.at = self.at + 1;
                    },
                    Resolution::Fail(error) => {
                        self.state = PlanState::Finished(Some(error));
                    },
                }
            },
            (PlanState::Creating { directory }, PlanEvent::Done) => {
                let state = PlanState::Canonicalizing {
                    path: directory.clone(),
                    kind: PathKind::Dir,
                };
                self.state = state;
            },
            (PlanState::Creating { directory }, PlanEvent::Failed(reason)) => {
                let error = Error::filesystem(FsOperation::CreateDir, directory.clone(), reason);
                self.state = PlanState::Finished(Some(error));
            },
            (PlanState::Canonicalizing { path, kind }, PlanEvent::Canonical(canonical)) => {
                let mut mounts = copy_mounts(&self.mounts);
                add_mount(&mut mounts, canonical.as_str(), *kind);
                self.mounts = mounts;
                if self.at + 1 < count {
                    self.state = PlanState::Probing;
                } else {
                    self.state = PlanState::Finished(None);
                }
                self.at = self.at + 1;
            },
            (PlanState::Canonicalizing { path, kind }, PlanEvent::Failed(reason)) => {
                let error = Error::filesystem(FsOperation::Canonicalize, path.clone(), reason);
                self.state = PlanState::Finished(Some(error));
            },
            _ => {},
        }
    }
}

/// The plan after a row of events, each taken in as it comes.
pub open spec fn plan_after(plan: MountPlannerView, events: Seq<PlanEventView>) -> MountPlannerView
    decreases events.len(),
{
    if events.len() == 0 {
        plan
    } else {
        plan_after(plan, events.drop_last()).next(events.last())
    }
}

/// The plan for a project and its declared paths, before anything was done.
pub open spec fn plan_start(project_dir: Seq<char>, declared: Seq<DeclaredPathView>)
    -> MountPlannerView {
    MountPlannerView {
        project_dir,
        declared,
        at: 0,
        mounts: Seq::empty(),
        state: PlanStateView::Locating,
    }
}

/// Whatever the caller tells the planner, in whatever order, the mounts never
/// hold one source twice.
pub proof fn mounts_never_repeat_a_source(
    project_dir: Seq<char>,
    declared: Seq<DeclaredPathView>,
    events: Seq<PlanEventView>,
)
    ensures
        plan_after(plan_start(project_dir, declared), events).wf(),
        distinct_sources(plan_after(plan_start(project_dir, declared), events).mounts),
    decreases events.len(),
{
    if events.len() > 0 {
        mounts_never_repeat_a_source(project_dir, declared, events.drop_last());
        plan_stays_well_formed(
            plan_after(plan_start(project_dir, declared), events.drop_last()),
            events.last(),
        );
    }
}

/// A declared file that is absent, lies outside the project and is to be
/// created: what is created is the directory that holds it, not the file; and
/// once that directory is there and its canonical path is known, the mount
/// that is added, if that path was not mounted yet, has that path as its
/// source and is the mount of a directory.
pub proof fn absent_file_mounts_its_parent(
    plan: MountPlannerView,
    parent: Seq<char>,
    canonical: Seq<char>,
)
    requires
        plan.wf(),
        plan.state == PlanStateView::Probing,
        plan.declared[plan.at as int].kind == PathKind::File,
        plan.declared[plan.at as int].create == CreatePolicy::Create,
        !path_within(plan.declared[plan.at as int].path, plan.project_dir),
        parent_text(plan.declared[plan.at as int].path) == Some(parent),
    ensures
        ({
            let probed = plan.next(PlanEventView::Exists(false));
            let created = probed.next(PlanEventView::Done);
            let mounted = created.next(PlanEventView::Canonical(canonical));
            &&& probed.pending() == PlanActionView::CreateDir { path: parent }
            &&& created.pending() == PlanActionView::Canonicalize { path: parent }
            &&& mounted.mounts == with_mount(plan.mounts, canonical, PathKind::Dir)
            &&& has_source(mounted.mounts, canonical)
            &&& mounted.at == plan.at + 1
        }),
{
    let after = with_mount(plan.mounts, canonical, PathKind::Dir);
    if !has_source(plan.mounts, canonical) {
        assert(after[after.len() - 1].source == canonical);
    }
}

/// The value of the first file option among the arguments: the argument
/// behind `-f` or `--file`, or what follows `-f=` or `--file=` in one
/// argument. An `-f` or `--file` that ends the arguments has no value.
pub open spec fn file_option(args: Seq<Seq<char>>) -> Option<Seq<char>>
    decreases args.len(),
{
    if args.len() == 0 {
        None
    } else if args[0] == "-f"@ || args[0] == "--file"@ {
        if args.len() > 1 {
            Some(args[1])
        } else {
            None
        }
    } else if "-f="@.is_prefix_of(args[0]) {
        Some(args[0].skip("-f="@.len() as int))
    } else if "--file="@.is_prefix_of(args[0]) {
        Some(args[0].skip("--file="@.len() as int))
    } else {
        file_option(args.drop_first())
    }
}

/// The arguments behind the first one that is `token`, if one is.
pub open spec fn after_token(args: Seq<Seq<char>>, token: Seq<char>) -> Option<Seq<Seq<char>>>
    decreases args.len(),
{
    if args.len() == 0 {
        None
    } else if args[0] == token {
        Some(args.drop_first())
    } else {
        after_token(args.drop_first(), token)
    }
}

/// The file that the arguments name without its being declared: the value of
/// the first file option behind the first argument that is `subcommand`.
pub open spec fn undeclared_file(args: Seq<Seq<char>>, subcommand: Seq<char>) -> Option<
    Seq<char>,
> {
    match after_token(args, subcommand) {
        Some(rest) => file_option(rest),
        None => None,
    }
}

/// Looks among the raw arguments for a file that is named behind the
/// subcommand `subcommand` by `-f <path>`, `--file <path>`, `-f=<path>` or
/// `--file=<path>`.
pub fn find_undeclared_file(args: &Vec<String>, subcommand: &str) -> (r: Option<String>)
    ensures
        r.deep_view() == undeclared_file(args.deep_view(), subcommand@),
{
    let ghost all = args.deep_view();
    let mut i: usize = 0;
    assert(all.skip(0) =~= all);
    while i < args.len() && !same_text(args[i].as_str(), subcommand)
        invariant
            i <= args.len(),
            all == args.deep_view(),
            after_token(all, subcommand@) == after_token(all.skip(i as int), subcommand@),
        decreases args.len() - i,
    {
        assert(all.skip(i as int).drop_first() =~= all.skip(i + 1));
        i += 1;
    }
    if i >= args.len() {
        return None;
    }
    assert(all.skip(i as int).drop_first() =~= all.skip(i + 1));
    let mut j: usize = i + 1;
    while j < args.len()
        invariant
            i < j <= args.len(),
            all == args.deep_view(),
            undeclared_file(all, subcommand@) == file_option(all.skip(j as int)),
        decreases args.len() - j,
    {
        let arg = args[j].as_str();
        assert(all.skip(j as int)[0] == arg@);
        assert(all.skip(j as int).drop_first() =~= all.skip(j + 1));
        if same_text(arg, "-f") || same_text(arg, "--file") {
            if j + 1 < args.len() {
                assert(all.skip(j as int)[1] == args[j + 1]@);
                return Some(args[j + 1].clone());
            } else {
                return None;
            }
        }
        match strip_prefix(arg, "-f=") {
            Some(path) => {
                return Some(path);
            },
            None => {},
        }
        match strip_prefix(arg, "--file=") {
            Some(path) => {
                return Some(path);
            },
            None => {},
        }
        j += 1;
    }
    None
}

/// The declaration of a file that the arguments name: a file that is mounted
/// where it is, and never created.
pub fn declare_file(path: String) -> (r: DeclaredPath)
    ensures
        r@ == (DeclaredPathView {
            path: path@,
            kind: PathKind::File,
            create: CreatePolicy::MustExist,
        }),
{
    DeclaredPath { path, kind: PathKind::File, create: CreatePolicy::MustExist }
}

} // verus!

//! A helper container that lives for one build step, and the host paths that
//! were created for it: both are cleaned up once, whatever happens.
//!
//! The library keeps the books; its caller starts the container, copies out
//! of it and tears it down, as the guard says.

use vstd::prelude::*;
use vstd::string::StringExecFns;
use crate::common::Invocation;
use crate::common::InvocationView;
use crate::docker::commands::DOCKER;
use crate::error::Error;
use crate::error::ErrorView;
use crate::error::fs_error;
use crate::error::FsOperation;
use crate::text::copy_texts;
use crate::text::push_str;
use crate::text::push_string;

verus! {

/// How far the life of the resource has come. It only ever moves on.
#[derive(Debug, Clone, Copy, PartialEq, Eq, Structural, Hash)]
pub enum GuardState {
    /// The container was asked for; nothing was copied out of it yet.
    Created,
    /// Something was copied out of the container.
    InUse,
    /// The cleanup was asked for and has not ended.
    Releasing,
    /// The cleanup has ended.
    Released,
}

impl GuardState {
    /// The place of the state in the life of the resource.
    pub open spec fn rank(self) -> int {
        match self {
            GuardState::Created => 0,
            GuardState::InUse => 1,
            GuardState::Releasing => 2,
            GuardState::Released => 3,
        }
    }

    /// Whether the resource is still there to be used.
    pub open spec fn live(self) -> bool {
        self == GuardState::Created || self == GuardState::InUse
    }
}

/// What a `TransientResourceGuard` stands for: the container's name, the
/// image it is made from, the host paths that were created for it, and the
/// state.
pub struct GuardView {
    pub name: Seq<char>,
    pub image: Seq<char>,
    pub owned: Seq<Seq<char>>,
    pub state: GuardState,
}

/// The request to copy a path out of the container into a host directory.
#[derive(Debug)]
pub struct CopyRequest {
    pub container: String,
    pub source: String,
    pub destination: String,
}

impl DeepView for CopyRequest {
    type V = (Seq<char>, Seq<char>, Seq<char>);

    open spec fn deep_view(&self) -> (Seq<char>, Seq<char>, Seq<char>) {
        (self.container@, self.source@, self.destination@)
    }
}

/// The request to clean up: the container to stop and remove, and the host
/// paths to delete.
#[derive(Debug)]
pub struct Teardown {
    pub container: String,
    pub paths: Vec<String>,
}

impl DeepView for Teardown {
    type V = (Seq<char>, Seq<Seq<char>>);

    open spec fn deep_view(&self) -> (Seq<char>, Seq<Seq<char>>) {
        (self.container@, self.paths.deep_view())
    }
}

/// How the deletion of one host path went.
#[derive(Debug)]
pub enum Removal {
    /// The path was deleted.
    Removed,
    /// The path was gone already.
    Missing,
    /// The path could not be deleted, for this reason.
    Failed(String),
}

/// What a `Removal` stands for.
pub enum RemovalView {
    Removed,
    Missing,
    Failed(Seq<char>),
}

impl DeepView for Removal {
    type V = RemovalView;

    open spec fn deep_view(&self) -> RemovalView {
        match self {
            Removal::Removed => RemovalView::Removed,
            Removal::Missing => RemovalView::Missing,
            Removal::Failed(reason) => RemovalView::Failed(reason@),
        }
    }
}

/// The command that makes the helper container `name` from `image`.
pub open spec fn create_invocation(name: Seq<char>, image: Seq<char>) -> InvocationView {
    InvocationView {
        program: DOCKER@,
        args: seq!["create"@, "--name"@, name, image],
        env: Seq::empty(),
    }
}

/// The command that copies `source` out of `container` to `destination`.
pub open spec fn copy_invocation(
    container: Seq<char>,
    source: Seq<char>,
    destination: Seq<char>,
) -> InvocationView {
    InvocationView {
        program: DOCKER@,
        args: seq!["cp"@, container + seq![':'] + source, destination],
        env: Seq::empty(),
    }
}

/// The commands that tear a container down: it is stopped, then removed.
pub open spec fn teardown_invocations(container: Seq<char>) -> Seq<InvocationView> {
    seq![
        InvocationView { program: DOCKER@, args: seq!["stop"@, container], env: Seq::empty() },
        InvocationView { program: DOCKER@, args: seq!["rm"@, container], env: Seq::empty() },
    ]
}

/// The command of the container tool with these arguments.
fn docker(args: Vec<String>) -> (r: Invocation)
    ensures
        r@ == (InvocationView { program: DOCKER@, args: args.deep_view(), env: Seq::empty() }),
{
    let r = Invocation { program: String::from_str(DOCKER), args, env: Vec::new() };
    assert(r.env.deep_view() =~= Seq::<(Seq<char>, Seq<char>)>::empty());
    r
}

impl CopyRequest {
    /// The command that makes the copy.
    pub fn invocation(&self) -> (r: Invocation)
        ensures
            r@ == copy_invocation(self.container@, self.source@, self.destination@),
    {
        proof {
            reveal_strlit(":");
        }
        let mut from = self.container.clone();
        from.append(":");
        from.append(self.source.as_str());
        assert(from@ =~= self.container@ + seq![':'] + self.source@);
        let mut args: Vec<String> = Vec::new();
        push_str(&mut args, "cp");
        push_string(&mut args, from);
        push_str(&mut args, self.destination.as_str());
        assert(args.deep_view() =~= copy_invocation(
            self.container@,
            self.source@,
            self.destination@,
        ).args);
        docker(args)
    }
}

impl Teardown {
    /// The commands that tear the container down, in their order.
    pub fn invocations(&self) -> (r: Vec<Invocation>)
        ensures
            r.deep_view() == teardown_invocations(self.container@),
    {
        let mut stop: Vec<String> = Vec::new();
        push_str(&mut stop, "stop");
        push_str(&mut stop, self.container.as_str());
        assert(stop.deep_view() =~= seq!["stop"@, self.container@]);
        let mut remove: Vec<String> = Vec::new();
        push_str(&mut remove, "rm");
        push_str(&mut remove, self.container.as_str());
        assert(remove.deep_view() =~= seq!["rm"@, self.container@]);
        let mut all: Vec<Invocation> = Vec::new();
        all.push(docker(stop));
        all.push(docker(remove));
        assert(all.deep_view() =~= teardown_invocations(self.container@));
        all
    }
}

impl GuardView {
    /// The guard after a copy out of the container is asked for, and the
    /// request: while the resource is live it is in use from then on, and the
    /// request names the container, the path in it and the host directory.
    /// Once the cleanup was asked for nothing is copied.
    pub open spec fn copy_out(self, container_path: Seq<char>, host_dir: Seq<char>) -> (
        GuardView,
        Option<(Seq<char>, Seq<char>, Seq<char>)>,
    ) {
        if self.state.live() {
            (
                GuardView { state: GuardState::InUse, ..self },
                Some((self.name, container_path, host_dir)),
            )
        } else {
            (self, None)
        }
    }

    /// The guard after a host path is put in its care: while the resource is
    /// live the path is noted, last; after that it is not.
    pub open spec fn own(self, host_path: Seq<char>) -> GuardView {
        if self.state.live() {
            GuardView { owned: self.owned.push(host_path), ..self }
        } else {
            self
        }
    }

    /// The guard after the cleanup is asked for, and the request: while the
    /// resource is live the cleanup begins, of the container and of every
    /// path in the guard's care. Once it was asked for, asking again does
    /// nothing.
    pub open spec fn release(self) -> (GuardView, Option<(Seq<char>, Seq<Seq<char>>)>) {
        if self.state.live() {
            (GuardView { state: GuardState::Releasing, ..self }, Some((self.name, self.owned)))
        } else {
            (self, None)
        }
    }

    /// The guard after the cleanup has ended: released, with nothing left in
    /// its care. Where no cleanup was under way nothing changes.
    pub open spec fn finish(self) -> GuardView {
        if self.state == GuardState::Releasing {
            GuardView { state: GuardState::Released, owned: Seq::empty(), ..self }
        } else {
            self
        }
    }
}

/// The failures to delete paths: for each path that could not be deleted, in
/// the order of the paths, the error of that deletion. A path that was
/// deleted, and one that was gone already, is no failure. Where more
/// deletions are told of than there are paths, none counts.
pub open spec fn removal_failures(paths: Seq<Seq<char>>, removals: Seq<RemovalView>) -> Seq<
    ErrorView,
>
    decreases removals.len(),
{
    if removals.len() == 0 || paths.len() < removals.len() {
        Seq::empty()
    } else {
        let earlier = removal_failures(paths, removals.drop_last());
        match removals.last() {
            RemovalView::Failed(reason) => earlier.push(
                fs_error(FsOperation::Remove, paths[removals.len() - 1], reason),
            ),
            _ => earlier,
        }
    }
}

/// The failures of a cleanup: that of the container's teardown, where it
/// failed, then the failures to delete paths.
pub open spec fn cleanup_failures(
    container: Option<ErrorView>,
    paths: Seq<Seq<char>>,
    removals: Seq<RemovalView>,
) -> Seq<ErrorView> {
    (match container {
        Some(error) => seq![error],
        None => Seq::empty(),
    }) + removal_failures(paths, removals)
}

/// The guard of a helper container and of the host paths created for it.
#[derive(Debug)]
pub struct TransientResourceGuard {
    name: String,
    image: String,
    owned: Vec<String>,
    state: GuardState,
}

impl View for TransientResourceGuard {
    type V = GuardView;

    closed spec fn view(&self) -> GuardView {
        GuardView {
            name: self.name@,
            image: self.image@,
            owned: self.owned.deep_view(),
            state: self.state,
        }
    }
}

impl TransientResourceGuard {
    /// The guard of the container `name`, which the caller starts from
    /// `image`. Nothing is in its care yet.
    pub fn new(name: &str, image: &str) -> (r: Self)
        ensures
            r@ == (GuardView {
                name: name@,
                image: image@,
                owned: Seq::empty(),
                state: GuardState::Created,
            }),
    {
        let r = TransientResourceGuard {
            name: String::from_str(name),
            image: String::from_str(image),
            owned: Vec::new(),
            state: GuardState::Created,
        };
        assert(r.owned.deep_view() =~= Seq::<Seq<char>>::empty());
        r
    }

    /// The container's name.
    pub fn name(&self) -> (r: &str)
        ensures
            r@ == self@.name,
    {
        self.name.as_str()
    }

    /// The image from which the container is made.
    pub fn image(&self) -> (r: &str)
        ensures
            r@ == self@.image,
    {
        self.image.as_str()
    }

    /// The command that makes the container, for the caller to run once the
    /// guard is made.
    pub fn create(&self) -> (r: Invocation)
        ensures
            r@ == create_invocation(self@.name, self@.image),
    {
        let mut args: Vec<String> = Vec::new();
        push_str(&mut args, "create");
        push_str(&mut args, "--name");
        push_str(&mut args, self.name.as_str());
        push_str(&mut args, self.image.as_str());
        assert(args.deep_view() =~= create_invocation(self@.name, self@.image).args);
        docker(args)
    }

    /// The state of the resource.
    pub fn state(&self) -> (r: GuardState)
        ensures
            r == self@.state,
    {
        self.state
    }

    /// Asks for a copy of `container_path` out of the container into
    /// `host_dir`. The caller copies what the request says; there is none
    /// once the cleanup was asked for.
    pub fn copy_out(&mut self, container_path: &str, host_dir: &str) -> (r: Option<CopyRequest>)
        ensures
            final(self)@ == old(self)@.copy_out(container_path@, host_dir@).0,
            r.deep_view() == old(self)@.copy_out(container_path@, host_dir@).1,
    {
        match self.state {
            GuardState::Created | GuardState::InUse => {
                self.state = GuardState::InUse;
                Some(
                    CopyRequest {
                        container: self.name.clone(),
                        source: String::from_str(container_path),
                        destination: String::from_str(host_dir),
                    },
                )
            },
            _ => None,
        }
    }

    /// Puts a host path that was created for the resource in the guard's
    /// care, to be deleted at the cleanup. Says whether it was taken.
    pub fn own(&mut self, host_path: &str) -> (r: bool)
        ensures
            final(self)@ == old(self)@.own(host_path@),
            r == old(self)@.state.live(),
    {
        match self.state {
            GuardState::Created | GuardState::InUse => {
                push_str(&mut self.owned, host_path);
                true
            },
            _ => false,
        }
    }

    /// Asks for the cleanup. The first time, the caller gets the request to
    /// tear the container down and to delete every path in the guard's care.
    /// Every later time it gets none, and nothing changes.
    pub fn release(&mut self) -> (r: Option<Teardown>)
        ensures
            final(self)@ == old(self)@.release().0,
            r.deep_view() == old(self)@.release().1,
    {
        match self.state {
            GuardState::Created | GuardState::InUse => {
                self.state = GuardState::Releasing;
                Some(Teardown { container: self.name.clone(), paths: copy_texts(&self.owned) })
            },
            _ => None,
        }
    }

    /// Takes in how the cleanup went: whether the teardown of the container
    /// failed, and how the deletion of each path went, in the order of the
    /// request. The resource is released from then on, however it went.
    /// Returns the failures, for the caller to log: they are never the result
    /// of the build step. A path that was gone already is no failure.
    pub fn finish(&mut self, container: Option<Error>, removals: &Vec<Removal>) -> (r: Vec<Error>)
        ensures
            final(self)@ == old(self)@.finish(),
            r.deep_view() == (if old(self)@.state == GuardState::Releasing {
                cleanup_failures(container.deep_view(), old(self)@.owned, removals.deep_view())
            } else {
                Seq::empty()
            }),
    {
        let mut failures: Vec<Error> = Vec::new();
        assert(failures.deep_view() =~= Seq::<ErrorView>::empty());
        match self.state {
            GuardState::Releasing => {},
            _ => {
                return failures;
            },
        }
        match container {
            Some(error) => {
                failures.push(error);
                assert(failures.deep_view() =~= seq![error@]);
            },
            None => {},
        }
        let ghost head = failures.deep_view();
        let ghost paths = self.owned.deep_view();
        let ghost all = removals.deep_view();
        if removals.len() <= self.owned.len() {
            let mut i: usize = 0;
            while i < removals.len()
                invariant
                    i <= removals.len(),
                    removals.len() <= self.owned.len(),
                    paths == self.owned.deep_view(),
                    all == removals.deep_view(),
                    failures.deep_view() == head + removal_failures(paths, all.take(i as int)),
                decreases removals.len() - i,
            {
                assert(all.take(i + 1).drop_last() =~= all.take(i as int));
                assert(all.take(i + 1).last() == all[i as int]);
                match &removals[i] {
                    Removal::Failed(reason) => {
                        let ghost before = failures.deep_view();
                        let error = Error::filesystem(
                            FsOperation::Remove,
                            self.owned[i].clone(),
                            reason.clone(),
                        );
                        failures.push(error);
                        assert(failures.deep_view() =~= before.push(
                            fs_error(FsOperation::Remove, paths[i as int], reason@),
                        ));
                        assert(failures.deep_view() =~= head + removal_failures(
                            paths,
                            all.take(i + 1),
                        ));
                    },
                    _ => {},
                }
                i += 1;
            }
            assert(all.take(i as int) =~= all);
        } else {
            assert(failures.deep_view() =~= head + removal_failures(paths, all));
        }
        self.state = GuardState::Released;
        self.owned = Vec::new();
        assert(self.owned.deep_view() =~= Seq::<Seq<char>>::empty());
        failures
    }
}

/// Asking for the cleanup twice tears down once: whatever the state, the
/// second request finds nothing to do and changes nothing, and it is no
/// error.
pub proof fn release_is_idempotent(guard: GuardView)
    ensures
        guard.release().0.release().1 is None,
        guard.release().0.release().0 == guard.release().0,
        guard.release().1 is Some <==> guard.state.live(),
{
}

/// What is done to a guard.
pub enum GuardStep {
    CopyOut(Seq<char>, Seq<char>),
    Own(Seq<char>),
    Release,
    Finish,
}

/// The guard after one step.
pub open spec fn guard_step(guard: GuardView, step: GuardStep) -> GuardView {
    match step {
        GuardStep::CopyOut(container_path, host_dir) => guard.copy_out(container_path, host_dir).0,
        GuardStep::Own(host_path) => guard.own(host_path),
        GuardStep::Release => guard.release().0,
        GuardStep::Finish => guard.finish(),
    }
}

/// Whether the step hands out a request to clean up.
pub open spec fn tears_down(guard: GuardView, step: GuardStep) -> bool {
    step is Release && guard.release().1 is Some
}

/// The guard after a row of steps.
pub open spec fn guard_after(guard: GuardView, steps: Seq<GuardStep>) -> GuardView
    decreases steps.len(),
{
    if steps.len() == 0 {
        guard
    } else {
        guard_step(guard_after(guard, steps.drop_last()), steps.last())
    }
}

/// How many of the steps hand out a request to clean up.
pub open spec fn teardowns(guard: GuardView, steps: Seq<GuardStep>) -> nat
    decreases steps.len(),
{
    if steps.len() == 0 {
        0
    } else {
        teardowns(guard, steps.drop_last()) + (if tears_down(
            guard_after(guard, steps.drop_last()),
            steps.last(),
        ) {
            1nat
        } else {
            0nat
        })
    }
}

/// Whatever is done to a guard, in whatever order: its state never moves
/// back, and the cleanup is handed out at most once, and not at all once the
/// resource is no longer live.
pub proof fn cleanup_runs_at_most_once(guard: GuardView, steps: Seq<GuardStep>)
    ensures
        guard.state.rank() <= guard_after(guard, steps).state.rank(),
        teardowns(guard, steps) <= 1,
        !guard.state.live() ==> teardowns(guard, steps) == 0,
        teardowns(guard, steps) == 1 ==> !guard_after(guard, steps).state.live(),
    decreases steps.len(),
{
    if steps.len() > 0 {
        cleanup_runs_at_most_once(guard, steps.drop_last());
    }
}

} // verus!

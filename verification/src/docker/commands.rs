//! The arguments of the container tool's `build` command and of `--mount`.

use vstd::prelude::*;
use vstd::string::StringExecFns;
use crate::common::Invocation;
use crate::common::InvocationView;
use crate::docker::image::ImageUri;
use crate::docker::image::ImageUriView;
use crate::text::push_str;
use crate::text::push_string;
use crate::variables::Variable;
use crate::variables::Variables;
use crate::variables::distinct_names;
use crate::variables::with_all;
use crate::variables::with_variable;

verus! {

/// What a `DockerBuild` stands for.
pub struct DockerBuildView {
    pub dockerfile: Option<Seq<char>>,
    pub context_dir: Seq<char>,
    pub tag: Option<ImageUriView>,
    pub build_args: Seq<Variable>,
}

/// The argument `--build-arg=KEY=value`.
pub open spec fn build_arg_text(arg: Variable) -> Seq<char> {
    "--build-arg="@ + arg.0 + seq!['='] + arg.1
}

impl DockerBuildView {
    /// The arguments of the build command: `build`; `--file` and the
    /// dockerfile, where there is one; `--tag` and the tag's text, where
    /// there is one; one `--build-arg=KEY=value` for each build arg, in their
    /// order; and the context directory.
    pub open spec fn args(self) -> Seq<Seq<char>> {
        seq!["build"@] + (match self.dockerfile {
            Some(dockerfile) => seq!["--file"@, dockerfile],
            None => Seq::empty(),
        }) + (match self.tag {
            Some(tag) => seq!["--tag"@, tag.uri()],
            None => Seq::empty(),
        }) + self.build_args.map_values(|arg: Variable| build_arg_text(arg)) + seq![
            self.context_dir,
        ]
    }
}

/// A `docker build` command. This follows the builder pattern:
/// `DockerBuild::default().dockerfile("./Dockerfile").context_dir(".")`.
pub struct DockerBuild {
    dockerfile: Option<String>,
    context_dir: String,
    tag: Option<ImageUri>,
    build_args: Variables,
}

impl View for DockerBuild {
    type V = DockerBuildView;

    closed spec fn view(&self) -> DockerBuildView {
        DockerBuildView {
            dockerfile: self.dockerfile.deep_view(),
            context_dir: self.context_dir@,
            tag: self.tag.deep_view(),
            build_args: self.build_args@,
        }
    }
}

impl Default for DockerBuild {
    /// The build of the current directory, with nothing else set.
    fn default() -> (r: Self)
        ensures
            r@ == (DockerBuildView {
                dockerfile: None,
                context_dir: "."@,
                tag: None,
                build_args: Seq::empty(),
            }),
    {
        Self {
            dockerfile: None,
            context_dir: String::from_str("."),
            tag: None,
            build_args: Variables::new(),
        }
    }
}

impl DockerBuild {
    /// Add a value for the `--file` argument.
    pub fn dockerfile(self, dockerfile: &str) -> (r: Self)
        ensures
            r@ == (DockerBuildView { dockerfile: Some(dockerfile@), ..self@ }),
    {
        let mut build = self;
        build.dockerfile = Some(String::from_str(dockerfile));
        build
    }

    /// Required: the directory to be passed to the build as the context.
    pub fn context_dir(self, context_dir: &str) -> (r: Self)
        ensures
            r@ == (DockerBuildView { context_dir: context_dir@, ..self@ }),
    {
        let mut build = self;
        build.context_dir = String::from_str(context_dir);
        build
    }

    /// Add a value for the `--tag` argument.
    pub fn tag(self, tag: ImageUri) -> (r: Self)
        ensures
            r@ == (DockerBuildView { tag: Some(tag@), ..self@ }),
    {
        let mut build = self;
        build.tag = Some(tag);
        build
    }

    /// Add a build arg, where `("KEY", value)` becomes `--build-arg=KEY=value`.
    /// A key that is set again has its new value only, and comes last.
    pub fn build_arg(self, key: &str, value: &str) -> (r: Self)
        ensures
            r@ == (DockerBuildView {
                build_args: with_variable(self@.build_args, key@, value@),
                ..self@
            }),
            distinct_names(r@.build_args),
    {
        let mut build = self;
        build.build_args.insert(key, value);
        build
    }

    /// Add multiple build args, in their order, where `("KEY", value)` becomes
    /// `--build-arg=KEY=value`.
    pub fn _build_args(self, build_args: Vec<(String, String)>) -> (r: Self)
        ensures
            r@ == (DockerBuildView {
                build_args: with_all(self@.build_args, build_args.deep_view()),
                ..self@
            }),
    {
        let ghost more = build_args.deep_view();
        let ghost before = self@;
        let mut build = self;
        let mut i: usize = 0;
        while i < build_args.len()
            invariant
                i <= build_args.len(),
                more == build_args.deep_view(),
                build@ == (DockerBuildView {
                    build_args: with_all(before.build_args, more.take(i as int)),
                    ..before
                }),
            decreases build_args.len() - i,
        {
            build.build_args.insert(build_args[i].0.as_str(), build_args[i].1.as_str());
            proof {
                assert(more.take(i + 1).drop_last() =~= more.take(i as int));
                assert(more.take(i + 1).last() == more[i as int]);
            }
            i += 1;
        }
        assert(more.take(i as int) =~= more);
        build
    }

    /// The arguments with which the container tool runs this build.
    pub fn args(&self) -> (r: Vec<String>)
        ensures
            r.deep_view() == self@.args(),
    {
        let mut args: Vec<String> = Vec::new();
        push_str(&mut args, "build");
        match &self.dockerfile {
            Some(dockerfile) => {
                push_str(&mut args, "--file");
                push_str(&mut args, dockerfile.as_str());
            },
            None => {},
        }
        match &self.tag {
            Some(tag) => {
                push_str(&mut args, "--tag");
                push_string(&mut args, tag.uri());
            },
            None => {},
        }
        let ghost head = args.deep_view();
        let ghost all = self@.build_args;
        let ghost text = |arg: Variable| build_arg_text(arg);
        let mut i: usize = 0;
        while i < self.build_args.len()
            invariant
                i <= all.len(),
                all == self@.build_args,
                all.len() == self.build_args@.len(),
                text == (|arg: Variable| build_arg_text(arg)),
                args.deep_view() == head + all.take(i as int).map_values(text),
            decreases all.len() - i,
        {
            proof {
                reveal_strlit("=");
            }
            let mut arg = String::from_str("--build-arg=");
            arg.append(self.build_args.name(i));
            arg.append("=");
            arg.append(self.build_args.value(i));
            assert(arg@ =~= build_arg_text(all[i as int]));
            push_string(&mut args, arg);
            assert(all.take(i + 1).map_values(text) =~= all.take(i as int).map_values(text).push(
                text(all[i as int]),
            ));
            assert(args.deep_view() =~= head + all.take(i + 1).map_values(text));
            i += 1;
        }
        assert(all.take(i as int) =~= all);
        push_str(&mut args, self.context_dir.as_str());
        assert(args.deep_view() =~= self@.args());
        args
    }
}

/// The program that builds images.
pub const DOCKER: &'static str = "docker";

impl DockerBuildView {
    /// The command that runs the build: the container tool with the build's
    /// arguments, and `DOCKER_BUILDKIT` set to `1`.
    pub open spec fn invocation(self) -> InvocationView {
        InvocationView {
            program: DOCKER@,
            args: self.args(),
            env: seq![("DOCKER_BUILDKIT"@, "1"@)],
        }
    }
}

impl DockerBuild {
    /// The command that runs the build.
    pub fn invocation(&self) -> (r: Invocation)
        ensures
            r@ == self@.invocation(),
    {
        let mut env: Vec<(String, String)> = Vec::new();
        env.push((String::from_str("DOCKER_BUILDKIT"), String::from_str("1")));
        assert(env.deep_view() =~= seq![("DOCKER_BUILDKIT"@, "1"@)]);
        Invocation { program: String::from_str(DOCKER), args: self.args(), env }
    }
}

/// The kind of a mount.
#[derive(Debug, Clone, Copy, PartialEq, Eq, Structural, Hash, PartialOrd, Ord)]
pub enum MountType {
    Bind,
    _Volume,
    _Tmpfs,
}

impl MountType {
    /// The kind's name in arguments: the variant's identifier in snake case,
    /// that is in lower case, with one more `_` before each capital letter
    /// that is not the first character.
    pub open spec fn name_text(self) -> Seq<char> {
        match self {
            MountType::Bind => "bind"@,
            MountType::_Volume => "__volume"@,
            MountType::_Tmpfs => "__tmpfs"@,
        }
    }

    /// The kind's name in arguments.
    pub fn name(&self) -> (r: &'static str)
        ensures
            r@ == self.name_text(),
    {
        match self {
            MountType::Bind => "bind",
            MountType::_Volume => "__volume",
            MountType::_Tmpfs => "__tmpfs",
        }
    }
}

impl Default for MountType {
    fn default() -> (r: Self)
        ensures
            r == MountType::Bind,
    {
        MountType::Bind
    }
}

/// What a `_Mount` stands for.
pub struct MountView {
    pub mount_type: MountType,
    pub source: Seq<char>,
    pub destination: Seq<char>,
    pub read_only: bool,
}

impl MountView {
    /// The value of a `--mount` argument:
    /// `type=bind,source=/foo,target=/foo`, with `,readonly` behind it for a
    /// mount that is read-only.
    pub open spec fn as_arg(self) -> Seq<char> {
        "type="@ + self.mount_type.name_text() + ",source="@ + self.source + ",target="@
            + self.destination + (if self.read_only {
            ",readonly"@
        } else {
            Seq::empty()
        })
    }
}

/// The value of a `--mount` argument.
#[derive(Debug)]
pub struct _Mount {
    pub _type: MountType,
    pub _source: String,
    pub _destination: String,
    pub _read_only: bool,
}

impl View for _Mount {
    type V = MountView;

    open spec fn view(&self) -> MountView {
        MountView {
            mount_type: self._type,
            source: self._source@,
            destination: self._destination@,
            read_only: self._read_only,
        }
    }
}

impl DeepView for _Mount {
    type V = MountView;

    open spec fn deep_view(&self) -> MountView {
        self@
    }
}

impl _Mount {
    /// Create a new mount, of type `Bind`, with the same external and internal
    /// path. For example, `_Mount::_new("/foo")` is
    /// `type=bind,source=/foo,target=/foo`.
    pub fn _new(path: &str) -> (r: Self)
        ensures
            r@ == (MountView {
                mount_type: MountType::Bind,
                source: path@,
                destination: path@,
                read_only: false,
            }),
    {
        Self {
            _type: MountType::Bind,
            _source: String::from_str(path),
            _destination: String::from_str(path),
            _read_only: false,
        }
    }

    /// Express the mount as the value of a `docker run` argument, e.g.
    /// `type=bind,source=/foo,target=/foo`.
    pub fn _as_arg(&self) -> (r: String)
        ensures
            r@ == self@.as_arg(),
    {
        let mut s = String::from_str("type=");
        s.append(self._type.name());
        s.append(",source=");
        s.append(self._source.as_str());
        s.append(",target=");
        s.append(self._destination.as_str());
        if self._read_only {
            s.append(",readonly");
        }
        assert(s@ =~= self@.as_arg());
        s
    }
}

impl Clone for _Mount {
    fn clone(&self) -> (r: Self)
        ensures
            r@ == self@,
    {
        Self {
            _type: self._type,
            _source: self._source.clone(),
            _destination: self._destination.clone(),
            _read_only: self._read_only,
        }
    }
}

impl Default for _Mount {
    fn default() -> (r: Self)
        ensures
            r@ == (MountView {
                mount_type: MountType::Bind,
                source: Seq::empty(),
                destination: Seq::empty(),
                read_only: false,
            }),
    {
        Self {
            _type: MountType::Bind,
            _source: String::new(),
            _destination: String::new(),
            _read_only: false,
        }
    }
}

/// `--mount` and the mount's value for each mount, in their order.
pub open spec fn mount_arguments(mounts: Seq<MountView>) -> Seq<Seq<char>> {
    Seq::new(
        2 * mounts.len(),
        |i: int|
            if i % 2 == 0 {
                "--mount"@
            } else {
                mounts[i / 2].as_arg()
            },
    )
}

/// What a `DockerRun` stands for.
pub struct DockerRunView {
    pub image: ImageUriView,
    pub mounts: Seq<MountView>,
    pub workdir: Seq<char>,
    pub command: Seq<Seq<char>>,
}

impl DockerRunView {
    /// The arguments of the run command: `run` and `--rm`; `--mount` and its
    /// value for each mount; `--workdir` and the working directory; the
    /// image; and the command with its arguments.
    pub open spec fn args(self) -> Seq<Seq<char>> {
        seq!["run"@, "--rm"@] + mount_arguments(self.mounts) + seq![
            "--workdir"@,
            self.workdir,
            self.image.uri(),
        ] + self.command
    }

    /// The command that runs the container.
    pub open spec fn invocation(self) -> InvocationView {
        InvocationView { program: DOCKER@, args: self.args(), env: Seq::empty() }
    }
}

/// A `docker run` command: a command that is run in a container of an image,
/// with host paths mounted into it. The container is removed when the command
/// ends.
#[derive(Debug)]
pub struct DockerRun {
    pub image: ImageUri,
    pub mounts: Vec<_Mount>,
    pub workdir: String,
    pub command: Vec<String>,
}

impl DeepView for DockerRun {
    type V = DockerRunView;

    open spec fn deep_view(&self) -> DockerRunView {
        DockerRunView {
            image: self.image@,
            mounts: self.mounts.deep_view(),
            workdir: self.workdir@,
            command: self.command.deep_view(),
        }
    }
}

impl View for DockerRun {
    type V = DockerRunView;

    open spec fn view(&self) -> DockerRunView {
        self.deep_view()
    }
}

impl DockerRun {
    /// The arguments with which the container tool runs the command.
    pub fn args(&self) -> (r: Vec<String>)
        ensures
            r.deep_view() == self@.args(),
    {
        let mut args: Vec<String> = Vec::new();
        push_str(&mut args, "run");
        push_str(&mut args, "--rm");
        let ghost head = args.deep_view();
        let ghost mounts = self.mounts.deep_view();
        let mut i: usize = 0;
        while i < self.mounts.len()
            invariant
                i <= self.mounts.len(),
                mounts == self.mounts.deep_view(),
                args.deep_view() == head + mount_arguments(mounts.take(i as int)),
            decreases self.mounts.len() - i,
        {
            push_str(&mut args, "--mount");
            push_string(&mut args, self.mounts[i]._as_arg());
            proof {
                let before = mount_arguments(mounts.take(i as int));
                let after = mount_arguments(mounts.take(i + 1));
                assert(after =~= before.push("--mount"@).push(mounts[i as int].as_arg()));
                assert(args.deep_view() =~= head + after);
            }
            i += 1;
        }
        assert(mounts.take(i as int) =~= mounts);
        push_str(&mut args, "--workdir");
        push_str(&mut args, self.workdir.as_str());
        push_string(&mut args, self.image.uri());
        let ghost front = args.deep_view();
        let mut j: usize = 0;
        while j < self.command.len()
            invariant
                j <= self.command.len(),
                args.deep_view() == front + self.command.deep_view().take(j as int),
            decreases self.command.len() - j,
        {
            push_str(&mut args, self.command[j].as_str());
            assert(args.deep_view() =~= front + self.command.deep_view().take(j + 1));
            j += 1;
        }
        assert(self.command.deep_view().take(j as int) =~= self.command.deep_view());
        assert(args.deep_view() =~= self@.args());
        args
    }

    /// The command that runs the container.
    pub fn invocation(&self) -> (r: Invocation)
        ensures
            r@ == self@.invocation(),
    {
        let r = Invocation { program: String::from_str(DOCKER), args: self.args(), env: Vec::new() };
        assert(r.env.deep_view() =~= Seq::<Variable>::empty());
        r
    }
}

} // verus!

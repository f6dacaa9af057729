//! One run of the task runner: what it is told to do, and the arguments that
//! tell it.

use vstd::prelude::*;
use vstd::string::StringExecFns;
use crate::common::Invocation;
use crate::common::InvocationView;
use crate::docker::commands::DockerRun;
use crate::docker::commands::DockerRunView;
use crate::docker::commands::_Mount;
use crate::docker::image::ImageUri;
use crate::docker::image::ImageUriView;
use crate::mounts::MountSpec;
use crate::mounts::MountSpecView;
use crate::text::assignment;
use crate::text::assignment_text;
use crate::text::push_str;
use crate::text::push_string;
use crate::variables::Variable;
use crate::variables::Variables;

verus! {

/// The program that runs tasks.
pub const TASK_RUNNER: &'static str = "cargo";

/// What a `TaskInvocation` stands for.
pub struct TaskInvocationView {
    pub task: Seq<char>,
    pub args: Seq<Seq<char>>,
    pub working_dir: Seq<char>,
    pub env: Seq<Variable>,
    pub makefile: Seq<char>,
}

/// One `-e` and one `NAME=value` for each variable, in their order.
pub open spec fn env_arguments(env: Seq<Variable>) -> Seq<Seq<char>> {
    Seq::new(
        2 * env.len(),
        |i: int|
            if i % 2 == 0 {
                "-e"@
            } else {
                assignment_text(env[i / 2].0, env[i / 2].1)
            },
    )
}

impl TaskInvocationView {
    /// What stands before the variables: the runner's own options, the task
    /// definition file and the working directory.
    pub open spec fn head(self) -> Seq<Seq<char>> {
        seq![
            "make"@,
            "--disable-check-for-updates"@,
            "--makefile"@,
            self.makefile,
            "--cwd"@,
            self.working_dir,
        ]
    }

    /// The arguments of the task runner: its own options with the task
    /// definition file and the working directory, the variables, the task's
    /// name, and behind it the caller's arguments.
    pub open spec fn arguments(self) -> Seq<Seq<char>> {
        self.head() + env_arguments(self.env) + seq![self.task] + self.args
    }
}

/// One run of the task runner.
#[derive(Debug)]
pub struct TaskInvocation {
    /// The task's name, e.g. `build`.
    pub task: String,
    /// Arguments that are handed on behind the task's name, unread.
    pub args: Vec<String>,
    /// The directory in which the task runs.
    pub working_dir: String,
    /// The variables that are set for the task.
    pub env: Variables,
    /// The task definition file.
    pub makefile: String,
}

impl DeepView for TaskInvocation {
    type V = TaskInvocationView;

    open spec fn deep_view(&self) -> TaskInvocationView {
        TaskInvocationView {
            task: self.task@,
            args: self.args.deep_view(),
            working_dir: self.working_dir@,
            env: self.env@,
            makefile: self.makefile@,
        }
    }
}

impl View for TaskInvocation {
    type V = TaskInvocationView;

    open spec fn view(&self) -> TaskInvocationView {
        self.deep_view()
    }
}

impl TaskInvocation {
    /// The arguments with which the task runner is started.
    pub fn arguments(&self) -> (r: Vec<String>)
        ensures
            r.deep_view() == self@.arguments(),
    {
        let mut args: Vec<String> = Vec::new();
        push_str(&mut args, "make");
        push_str(&mut args, "--disable-check-for-updates");
        push_str(&mut args, "--makefile");
        push_str(&mut args, self.makefile.as_str());
        push_str(&mut args, "--cwd");
        push_str(&mut args, self.working_dir.as_str());
        assert(args.deep_view() =~= self@.head());
        let ghost env = self.env@;
        let mut i: usize = 0;
        while i < self.env.len()
            invariant
                i <= env.len(),
                env == self.env@,
                args.deep_view() == self@.head() + env_arguments(env.take(i as int)),
            decreases env.len() - i,
        {
            push_str(&mut args, "-e");
            push_string(&mut args, assignment(self.env.name(i), self.env.value(i)));
            proof {
                let before = env_arguments(env.take(i as int));
                let after = env_arguments(env.take(i + 1));
                assert(after =~= before.push("-e"@).push(
                    assignment_text(env[i as int].0, env[i as int].1),
                ));
                assert(args.deep_view() =~= self@.head() + after);
            }
            i += 1;
        }
        assert(env.take(i as int) =~= env);
        push_str(&mut args, self.task.as_str());
        let ghost head = args.deep_view();
        let mut j: usize = 0;
        while j < self.args.len()
            invariant
                j <= self.args.len(),
                args.deep_view() == head + self.args.deep_view().take(j as int),
            decreases self.args.len() - j,
        {
            push_str(&mut args, self.args[j].as_str());
            assert(args.deep_view() =~= head + self.args.deep_view().take(j + 1));
            j += 1;
        }
        assert(self.args.deep_view().take(j as int) =~= self.args.deep_view());
        assert(args.deep_view() =~= self@.arguments());
        args
    }

    /// The command that runs the task: the task runner with these arguments.
    /// The variables travel in the arguments, so none is set beside them.
    pub fn invocation(&self) -> (r: Invocation)
        ensures
            r@ == (InvocationView {
                program: TASK_RUNNER@,
                args: self@.arguments(),
                env: Seq::empty(),
            }),
    {
        let r = Invocation {
            program: String::from_str(TASK_RUNNER),
            args: self.arguments(),
            env: Vec::new(),
        };
        assert(r.env.deep_view() =~= Seq::<Variable>::empty());
        r
    }
}

impl TaskInvocationView {
    /// The run of the task inside a container of the build environment's
    /// image: the host paths are mounted where they are on the host, the
    /// working directory is the task's, and the command is the task runner
    /// with the task's arguments.
    pub open spec fn container_run(self, image: ImageUriView, mounts: Seq<MountSpecView>)
        -> DockerRunView {
        DockerRunView {
            image,
            mounts: mounts.map_values(|m: MountSpecView| m.mount()),
            workdir: self.working_dir,
            command: seq![TASK_RUNNER@] + self.arguments(),
        }
    }
}

impl TaskInvocation {
    /// The run of the task inside a container of the build environment's
    /// image, with the planned mounts.
    pub fn container_run(&self, image: &ImageUri, mounts: &Vec<MountSpec>) -> (r: DockerRun)
        ensures
            r@ == self@.container_run(image@, mounts.deep_view()),
    {
        let ghost specs = mounts.deep_view();
        let ghost bind = |m: MountSpecView| m.mount();
        let mut binds: Vec<_Mount> = Vec::new();
        let mut i: usize = 0;
        while i < mounts.len()
            invariant
                i <= mounts.len(),
                specs == mounts.deep_view(),
                bind == (|m: MountSpecView| m.mount()),
                binds.deep_view() == specs.take(i as int).map_values(bind),
            decreases mounts.len() - i,
        {
            let ghost before = binds.deep_view();
            binds.push(mounts[i].mount());
            assert(binds.deep_view() =~= before.push(bind(specs[i as int])));
            assert(specs.take(i + 1).map_values(bind) =~= specs.take(i as int).map_values(
                bind,
            ).push(bind(specs[i as int])));
            i += 1;
        }
        assert(specs.take(i as int) =~= specs);
        let mut command: Vec<String> = Vec::new();
        push_str(&mut command, TASK_RUNNER);
        let arguments = self.arguments();
        let mut j: usize = 0;
        while j < arguments.len()
            invariant
                j <= arguments.len(),
                command.deep_view() == seq![TASK_RUNNER@] + arguments.deep_view().take(j as int),
            decreases arguments.len() - j,
        {
            push_str(&mut command, arguments[j].as_str());
            assert(command.deep_view() =~= seq![TASK_RUNNER@] + arguments.deep_view().take(
                j + 1,
            ));
            j += 1;
        }
        assert(arguments.deep_view().take(j as int) =~= arguments.deep_view());
        DockerRun { image: image.clone(), mounts: binds, workdir: self.working_dir.clone(), command }
    }
}

/// Where the parts of the arguments stand: the variables come in pairs behind
/// the six leading arguments, an `-e` before each `NAME=value`; the task's
/// name follows the last of them; and the caller's arguments are the end.
pub proof fn arguments_layout(task: TaskInvocationView)
    ensures
        task.arguments().len() == 6 + 2 * task.env.len() + 1 + task.args.len(),
        forall|i: int|
            0 <= i < task.env.len() ==> #[trigger] task.arguments()[6 + 2 * i] == "-e"@
                && task.arguments()[6 + 2 * i + 1] == assignment_text(task.env[i].0, task.env[i].1),
        task.arguments()[6 + 2 * task.env.len() as int] == task.task,
        task.arguments().skip(6 + 2 * task.env.len() as int + 1) == task.args,
        task.arguments().take(6) == task.head(),
{
    let all = task.arguments();
    let env = env_arguments(task.env);
    assert forall|i: int| 0 <= i < task.env.len() implies #[trigger] all[6 + 2 * i] == "-e"@
        && all[6 + 2 * i + 1] == assignment_text(task.env[i].0, task.env[i].1) by {
        assert(all[6 + 2 * i] == env[2 * i]);
        assert(all[6 + 2 * i + 1] == env[2 * i + 1]);
        assert((2 * i) % 2 == 0);
        assert((2 * i + 1) % 2 == 1);
        assert((2 * i + 1) / 2 == i);
    }
    assert(all.skip(6 + 2 * task.env.len() as int + 1) =~= task.args);
    assert(all.take(6) =~= task.head());
}

} // verus!

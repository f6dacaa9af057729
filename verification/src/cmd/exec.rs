//! The `exec` command: run one task of the task runner in the build
//! environment.

use vstd::prelude::*;
use crate::cmd::Project;
use crate::cmd::ProjectView;
use crate::env::build_system_rules;
use crate::env::build_system_rules_admit;
use crate::env::is_build_system_name;
use crate::env::surface;
use crate::env::surface_law;
use crate::env::EnvironmentSurface;
use crate::mounts::CreatePolicy;
use crate::mounts::DeclaredPath;
use crate::mounts::DeclaredPathView;
use crate::mounts::PathKind;
use crate::task::arguments_layout;
use crate::task::TaskInvocation;
use crate::task::TaskInvocationView;
use crate::text::assignment_text;
use crate::text::copy_texts;
use crate::tools::ToolCache;
use crate::tools::ToolCacheView;
use crate::tools::InstallStateView;
use crate::variables::push_variable;
use crate::variables::Variable;

verus! {

/// The variable that tells the task where the package manager keeps its
/// files.
pub const CARGO_HOME: &'static str = "CARGO_HOME";

/// Run a task in the build environment. Paths that the task definition takes
/// from the environment are explicit arguments here, so that the caller
/// decides which of them are mounted.
#[derive(Debug)]
pub struct Exec {
    /// Path to the project file. It is searched for when absent.
    pub project_path: Option<String>,
    /// Where the package manager keeps its files for this build. It is not
    /// read from the host's `CARGO_HOME`, so that the two are never confused.
    pub cargo_home: String,
    /// The task, e.g. `build`.
    pub makefile_task: String,
    /// Arguments that are handed to the task runner behind the task's name,
    /// unread.
    pub additional_args: Vec<String>,
}

/// What an `Exec` stands for.
pub struct ExecView {
    pub project_path: Option<Seq<char>>,
    pub cargo_home: Seq<char>,
    pub makefile_task: Seq<char>,
    pub additional_args: Seq<Seq<char>>,
}

impl DeepView for Exec {
    type V = ExecView;

    open spec fn deep_view(&self) -> ExecView {
        ExecView {
            project_path: self.project_path.deep_view(),
            cargo_home: self.cargo_home@,
            makefile_task: self.makefile_task@,
            additional_args: self.additional_args.deep_view(),
        }
    }
}

impl View for Exec {
    type V = ExecView;

    open spec fn view(&self) -> ExecView {
        self.deep_view()
    }
}

impl ExecView {
    /// The variables that the command sets itself.
    pub open spec fn overrides(self) -> Seq<Variable> {
        seq![(CARGO_HOME@, self.cargo_home)]
    }

    /// The run of the task: in the project directory, with the project's task
    /// definition, the host's build system variables and the command's own,
    /// and the caller's arguments behind the task's name.
    pub open spec fn task(self, project: ProjectView, host_env: Seq<Variable>)
        -> TaskInvocationView {
        TaskInvocationView {
            task: self.makefile_task,
            args: self.additional_args,
            working_dir: project.project_dir,
            env: surface(build_system_rules(), host_env, self.overrides()),
            makefile: project.makefile(),
        }
    }
}

impl Exec {
    /// The install of the tools that goes before the task: into the
    /// project's tools directory, and only if they are not there yet.
    pub fn install(&self, project: &Project, bundle_hash: &str) -> (r: ToolCache)
        ensures
            r@ == (ToolCacheView {
                tools_dir: project@.tools_dir(),
                bundle_hash: bundle_hash@,
                force: false,
                state: InstallStateView::CreatingDir,
            }),
    {
        ToolCache::new(project.tools_dir().as_str(), bundle_hash, false)
    }

    /// The paths that the task needs beside the project directory: the
    /// package manager's directory, which is created where it is absent.
    pub fn declared_paths(&self) -> (r: Vec<DeclaredPath>)
        ensures
            r.deep_view() == seq![
                DeclaredPathView {
                    path: self@.cargo_home,
                    kind: PathKind::Dir,
                    create: CreatePolicy::Create,
                },
            ],
    {
        let mut declared: Vec<DeclaredPath> = Vec::new();
        declared.push(
            DeclaredPath {
                path: self.cargo_home.clone(),
                kind: PathKind::Dir,
                create: CreatePolicy::Create,
            },
        );
        assert(declared.deep_view() =~= seq![
            DeclaredPathView {
                path: self@.cargo_home,
                kind: PathKind::Dir,
                create: CreatePolicy::Create,
            },
        ]);
        declared
    }

    /// The run of the task, given the project and the host's environment.
    pub fn task(&self, project: &Project, host_env: &Vec<(String, String)>) -> (r: TaskInvocation)
        ensures
            r@ == self@.task(project@, host_env.deep_view()),
    {
        let mut overrides: Vec<(String, String)> = Vec::new();
        assert(overrides.deep_view() =~= Seq::<Variable>::empty());
        push_variable(&mut overrides, CARGO_HOME, self.cargo_home.as_str());
        assert(overrides.deep_view() =~= self@.overrides());
        TaskInvocation {
            task: self.makefile_task.clone(),
            args: copy_texts(&self.additional_args),
            working_dir: project.project_dir.clone(),
            env: EnvironmentSurface::build_system().build(host_env, &overrides),
            makefile: project.makefile(),
        }
    }
}

/// The arguments with which the task runner is started end with the task's
/// name and, behind it, the caller's arguments as they were given. Before
/// them stand the variables, each as `-e` and `NAME=value`; each is one of
/// the host's with a name of the build system, or the package manager's
/// directory that the command sets.
pub proof fn exec_arguments_law(exec: ExecView, project: ProjectView, host_env: Seq<Variable>)
    ensures
        ({
            let task = exec.task(project, host_env);
            let args = task.arguments();
            &&& args.len() == 7 + 2 * task.env.len() + exec.additional_args.len()
            &&& args.skip(6 + 2 * task.env.len() as int) == seq![exec.makefile_task]
                + exec.additional_args
            &&& forall|i: int|
                0 <= i < task.env.len() ==> {
                    &&& #[trigger] args[6 + 2 * i] == "-e"@
                    &&& args[6 + 2 * i + 1] == assignment_text(task.env[i].0, task.env[i].1)
                    &&& (task.env[i] == (CARGO_HOME@, exec.cargo_home) || (host_env.contains(
                        task.env[i],
                    ) && is_build_system_name(task.env[i].0)))
                }
        }),
{
    let task = exec.task(project, host_env);
    let args = task.arguments();
    arguments_layout(task);
    surface_law(build_system_rules(), host_env, exec.overrides());
    assert(args.skip(6 + 2 * task.env.len() as int) =~= seq![exec.makefile_task]
        + exec.additional_args);
    assert forall|i: int| 0 <= i < task.env.len() implies {
        &&& #[trigger] args[6 + 2 * i] == "-e"@
        &&& args[6 + 2 * i + 1] == assignment_text(task.env[i].0, task.env[i].1)
        &&& (task.env[i] == (CARGO_HOME@, exec.cargo_home) || (host_env.contains(task.env[i])
            && is_build_system_name(task.env[i].0)))
    } by {
        let v = task.env[i];
        assert(task.env.contains(v));
        build_system_rules_admit(v.0);
        if exec.overrides().contains(v) {
            let k = choose|k: int| 0 <= k < exec.overrides().len() && exec.overrides()[k] == v;
            assert(k == 0);
        }
    }
}

} // verus!

//! The `build clean` command: remove what the builds have left.

use vstd::prelude::*;
use vstd::string::StringExecFns;
use crate::cmd::Project;
use crate::cmd::ProjectView;
use crate::env::build_system_rules;
use crate::env::surface;
use crate::env::EnvironmentSurface;
use crate::error::Error;
use crate::error::ErrorView;
use crate::error::result_view;
use crate::task::TaskInvocation;
use crate::task::TaskInvocationView;
use crate::variables::Variable;

verus! {

/// The task that cleans.
pub const CLEAN_TASK: &'static str = "clean";

/// Remove what the builds have left.
#[derive(Debug)]
pub struct BuildClean {
    /// Path to the project file. It is searched for when absent.
    pub project_path: Option<String>,
}

/// The run of the cleaning task: in the project directory, with the project's
/// task definition, the host's build system variables and the project's own,
/// and no further arguments. A project without a toolchain image cannot be
/// cleaned.
pub open spec fn clean_task(project: ProjectView, arch: Seq<char>, host_env: Seq<Variable>)
    -> Result<TaskInvocationView, ErrorView> {
    match project.task_variables(arch) {
        Ok(overrides) => Ok(
            TaskInvocationView {
                task: CLEAN_TASK@,
                args: Seq::empty(),
                working_dir: project.project_dir,
                env: surface(build_system_rules(), host_env, overrides),
                makefile: project.makefile(),
            },
        ),
        Err(error) => Err(error),
    }
}

impl BuildClean {
    /// The run of the cleaning task, given the project, the architecture and
    /// the host's environment.
    pub fn task(&self, project: &Project, arch: &str, host_env: &Vec<(String, String)>) -> (r:
        Result<TaskInvocation, Error>)
        ensures
            result_view(r) == clean_task(project@, arch@, host_env.deep_view()),
    {
        match project.task_variables(arch) {
            Err(error) => Err(error),
            Ok(overrides) => {
                let args: Vec<String> = Vec::new();
                assert(args.deep_view() =~= Seq::<Seq<char>>::empty());
                Ok(
                    TaskInvocation {
                        task: String::from_str(CLEAN_TASK),
                        args,
                        working_dir: project.project_dir.clone(),
                        env: EnvironmentSurface::build_system().build(host_env, &overrides),
                        makefile: project.makefile(),
                    },
                )
            },
        }
    }
}

} // verus!

//! The `build kit` command.

use vstd::prelude::*;
use vstd::string::StringExecFns;
use crate::cmd::add_build_variables;
use crate::cmd::build_variables;
use crate::cmd::Project;
use crate::cmd::ProjectView;
use crate::env::build_system_rules;
use crate::env::surface;
use crate::env::EnvironmentSurface;
use crate::error::Error;
use crate::error::ErrorView;
use crate::error::result_view;
use crate::task::TaskInvocation;
use crate::task::TaskInvocationView;
use crate::variables::Variable;

verus! {

/// The task that builds a kit.
pub const BUILD_KIT_TASK: &'static str = "build-kit";

/// Build a kit.
#[derive(Debug)]
pub struct BuildKit {
    /// Path to the project file. It is searched for when absent.
    pub project_path: Option<String>,
    /// The architecture to build for.
    pub arch: String,
    /// The name of the kit to build.
    pub kit: String,
    /// Where sources are looked for before they are pulled from upstream.
    pub lookaside_cache: Option<String>,
    /// Whether sources that the lookaside cache lacks are pulled from
    /// upstream.
    pub upstream_source_fallback: bool,
}

/// What a `BuildKit` stands for.
pub struct BuildKitView {
    pub project_path: Option<Seq<char>>,
    pub arch: Seq<char>,
    pub kit: Seq<char>,
    pub lookaside_cache: Option<Seq<char>>,
    pub upstream_source_fallback: bool,
}

impl DeepView for BuildKit {
    type V = BuildKitView;

    open spec fn deep_view(&self) -> BuildKitView {
        BuildKitView {
            project_path: self.project_path.deep_view(),
            arch: self.arch@,
            kit: self.kit@,
            lookaside_cache: self.lookaside_cache.deep_view(),
            upstream_source_fallback: self.upstream_source_fallback,
        }
    }
}

impl View for BuildKit {
    type V = BuildKitView;

    open spec fn view(&self) -> BuildKitView {
        self.deep_view()
    }
}

impl BuildKitView {
    /// The variables that the command sets: those of every task of the
    /// project, then those of the build of this kit.
    pub open spec fn overrides(self, project: ProjectView, go_modules: Seq<Seq<char>>) -> Result<
        Seq<Variable>,
        ErrorView,
    > {
        match project.task_variables(self.arch) {
            Ok(vars) => Ok(
                vars + build_variables(
                    self.arch,
                    ("BUILDSYS_KIT"@, self.kit),
                    project.release_version,
                    go_modules,
                    self.upstream_source_fallback,
                    self.lookaside_cache,
                ),
            ),
            Err(error) => Err(error),
        }
    }

    /// The run of the task that builds the kit.
    pub open spec fn task(
        self,
        project: ProjectView,
        go_modules: Seq<Seq<char>>,
        host_env: Seq<Variable>,
    ) -> Result<TaskInvocationView, ErrorView> {
        match self.overrides(project, go_modules) {
            Ok(overrides) => Ok(
                TaskInvocationView {
                    task: BUILD_KIT_TASK@,
                    args: Seq::empty(),
                    working_dir: project.project_dir,
                    env: surface(build_system_rules(), host_env, overrides),
                    makefile: project.makefile(),
                },
            ),
            Err(error) => Err(error),
        }
    }
}

impl BuildKit {
    /// The variables that the command sets, given the project and the
    /// modules that it holds.
    pub fn overrides(&self, project: &Project, go_modules: &Vec<String>) -> (r: Result<
        Vec<(String, String)>,
        Error,
    >)
        ensures
            result_view(r) == self@.overrides(project@, go_modules.deep_view()),
    {
        match project.task_variables(self.arch.as_str()) {
            Err(error) => Err(error),
            Ok(vars) => {
                let mut vars = vars;
                add_build_variables(
                    &mut vars,
                    self.arch.as_str(),
                    "BUILDSYS_KIT",
                    self.kit.as_str(),
                    project.release_version.as_str(),
                    go_modules,
                    self.upstream_source_fallback,
                    &self.lookaside_cache,
                );
                Ok(vars)
            },
        }
    }

    /// The run of the task that builds the kit, given the project, the
    /// modules that it holds and the host's environment.
    pub fn task(
        &self,
        project: &Project,
        go_modules: &Vec<String>,
        host_env: &Vec<(String, String)>,
    ) -> (r: Result<TaskInvocation, Error>)
        ensures
            result_view(r) == self@.task(project@, go_modules.deep_view(), host_env.deep_view()),
    {
        match self.overrides(project, go_modules) {
            Err(error) => Err(error),
            Ok(overrides) => {
                let args: Vec<String> = Vec::new();
                assert(args.deep_view() =~= Seq::<Seq<char>>::empty());
                Ok(
                    TaskInvocation {
                        task: String::from_str(BUILD_KIT_TASK),
                        args,
                        working_dir: project.project_dir.clone(),
                        env: EnvironmentSurface::build_system().build(host_env, &overrides),
                        makefile: project.makefile(),
                    },
                )
            },
        }
    }
}

} // verus!

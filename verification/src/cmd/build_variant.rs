//! The `build variant` command.

use vstd::prelude::*;
use vstd::string::StringExecFns;
use crate::cmd::add_build_variables;
use crate::cmd::build_variables;
use crate::cmd::Project;
use crate::cmd::ProjectView;
use crate::env::build_system_rules;
use crate::env::surface;
use crate::env::EnvironmentSurface;
use crate::error::Error;
use crate::error::ErrorView;
use crate::error::result_view;
use crate::mounts::CreatePolicy;
use crate::mounts::DeclaredPath;
use crate::mounts::DeclaredPathView;
use crate::mounts::PathKind;
use crate::path::join_path;
use crate::path::joined_path;
use crate::task::TaskInvocation;
use crate::task::TaskInvocationView;
use crate::variables::push_variable;
use crate::variables::Variable;

verus! {

/// The task that builds a variant.
pub const BUILD_VARIANT_TASK: &'static str = "build";

/// Where the packages are kept, below the project directory.
pub const RPMS_DIR: &'static str = "build/rpms";

/// Where the secure boot keys are kept, below the project directory.
pub const SBKEYS_DIR: &'static str = "sbkeys";

/// Where the toolchain's packages are copied to, below the scratch directory.
pub const SDK_RPMS_DIR: &'static str = "sdk_rpms";

/// The directory that the copy of the packages makes there.
pub const COPIED_RPMS_DIR: &'static str = "rpms";

/// The toolchain's packages, inside the helper container.
pub const CONTAINER_RPMS: &'static str = "twoliter/alpha/build/rpms";

/// The script that makes local secure boot keys, inside the helper container.
pub const CONTAINER_SBKEYS: &'static str = "twoliter/alpha/sbkeys/generate-local-sbkeys";

/// Build a variant.
#[derive(Debug)]
pub struct BuildVariant {
    /// Path to the project file. It is searched for when absent.
    pub project_path: Option<String>,
    /// The architecture to build for.
    pub arch: String,
    /// The variant to build.
    pub variant: String,
    /// Where sources are looked for before they are pulled from upstream.
    pub lookaside_cache: Option<String>,
    /// Whether sources that the lookaside cache lacks are pulled from
    /// upstream.
    pub upstream_source_fallback: bool,
    /// Path to the file that configures the infrastructure.
    pub infra_toml: Option<String>,
}

/// What a `BuildVariant` stands for.
pub struct BuildVariantView {
    pub project_path: Option<Seq<char>>,
    pub arch: Seq<char>,
    pub variant: Seq<char>,
    pub lookaside_cache: Option<Seq<char>>,
    pub upstream_source_fallback: bool,
    pub infra_toml: Option<Seq<char>>,
}

impl DeepView for BuildVariant {
    type V = BuildVariantView;

    open spec fn deep_view(&self) -> BuildVariantView {
        BuildVariantView {
            project_path: self.project_path.deep_view(),
            arch: self.arch@,
            variant: self.variant@,
            lookaside_cache: self.lookaside_cache.deep_view(),
            upstream_source_fallback: self.upstream_source_fallback,
            infra_toml: self.infra_toml.deep_view(),
        }
    }
}

impl View for BuildVariant {
    type V = BuildVariantView;

    open spec fn view(&self) -> BuildVariantView {
        self.deep_view()
    }
}

/// What is fetched out of the helper container before a variant is built.
#[derive(Debug)]
pub struct Extraction {
    /// The helper container's name.
    pub container: String,
    /// The directory into which the toolchain's packages are copied. It is
    /// created for the container, and deleted with it.
    pub packages_dir: String,
    /// The toolchain's packages, inside the container.
    pub container_rpms: String,
    /// The directory that the copy makes: its entries are moved on.
    pub copied_rpms: String,
    /// The project's package directory, into which they are moved.
    pub rpms_dir: String,
    /// The project's key directory.
    pub sbkeys_dir: String,
    /// The script to copy into the key directory, after it is created, where
    /// the project has none; nothing where it has one.
    pub container_sbkeys: Option<String>,
}

/// What an `Extraction` stands for.
pub struct ExtractionView {
    pub container: Seq<char>,
    pub packages_dir: Seq<char>,
    pub container_rpms: Seq<char>,
    pub copied_rpms: Seq<char>,
    pub rpms_dir: Seq<char>,
    pub sbkeys_dir: Seq<char>,
    pub container_sbkeys: Option<Seq<char>>,
}

impl DeepView for Extraction {
    type V = ExtractionView;

    open spec fn deep_view(&self) -> ExtractionView {
        ExtractionView {
            container: self.container@,
            packages_dir: self.packages_dir@,
            container_rpms: self.container_rpms@,
            copied_rpms: self.copied_rpms@,
            rpms_dir: self.rpms_dir@,
            sbkeys_dir: self.sbkeys_dir@,
            container_sbkeys: self.container_sbkeys.deep_view(),
        }
    }
}

impl View for Extraction {
    type V = ExtractionView;

    open spec fn view(&self) -> ExtractionView {
        self.deep_view()
    }
}

impl BuildVariantView {
    /// Where the project keeps its secure boot keys.
    pub open spec fn sbkeys_dir(self, project: ProjectView) -> Seq<char> {
        joined_path(project.project_dir, SBKEYS_DIR@)
    }

    /// The variables that the command sets: those of every task of the
    /// project, then those of the build of this variant, with the key
    /// directory and, where the caller names it, the infrastructure's
    /// configuration.
    pub open spec fn overrides(self, project: ProjectView, go_modules: Seq<Seq<char>>) -> Result<
        Seq<Variable>,
        ErrorView,
    > {
        match project.task_variables(self.arch) {
            Ok(vars) => Ok(
                vars + build_variables(
                    self.arch,
                    ("BUILDSYS_VARIANT"@, self.variant),
                    project.release_version,
                    go_modules,
                    self.upstream_source_fallback,
                    self.lookaside_cache,
                ) + seq![("BUILDSYS_SBKEYS_DIR"@, self.sbkeys_dir(project))] + (
                match self.infra_toml {
                    Some(infra) => seq![("PUBLISH_INFRA_CONFIG_PATH"@, infra)],
                    None => Seq::empty(),
                }),
            ),
            Err(error) => Err(error),
        }
    }

    /// The run of the task that builds the variant.
    pub open spec fn task(
        self,
        project: ProjectView,
        go_modules: Seq<Seq<char>>,
        host_env: Seq<Variable>,
    ) -> Result<TaskInvocationView, ErrorView> {
        match self.overrides(project, go_modules) {
            Ok(overrides) => Ok(
                TaskInvocationView {
                    task: BUILD_VARIANT_TASK@,
                    args: Seq::empty(),
                    working_dir: project.project_dir,
                    env: surface(build_system_rules(), host_env, overrides),
                    makefile: project.makefile(),
                },
            ),
            Err(error) => Err(error),
        }
    }

    /// What is fetched out of the helper container: the container is named
    /// `sdk-` and the project's token; the packages go by way of the scratch
    /// directory into the project's package directory; and the script for the
    /// keys is fetched only where the project has no key directory.
    pub open spec fn extraction(
        self,
        project: ProjectView,
        token: Seq<char>,
        scratch_dir: Seq<char>,
        has_sbkeys: bool,
    ) -> ExtractionView {
        ExtractionView {
            container: "sdk-"@ + token,
            packages_dir: joined_path(scratch_dir, SDK_RPMS_DIR@),
            container_rpms: CONTAINER_RPMS@,
            copied_rpms: joined_path(joined_path(scratch_dir, SDK_RPMS_DIR@), COPIED_RPMS_DIR@),
            rpms_dir: joined_path(project.project_dir, RPMS_DIR@),
            sbkeys_dir: self.sbkeys_dir(project),
            container_sbkeys: if has_sbkeys {
                None
            } else {
                Some(CONTAINER_SBKEYS@)
            },
        }
    }
}

impl BuildVariant {
    /// Where the project keeps its secure boot keys.
    pub fn sbkeys_dir(&self, project: &Project) -> (r: String)
        ensures
            r@ == self@.sbkeys_dir(project@),
    {
        join_path(project.project_dir.as_str(), SBKEYS_DIR)
    }

    /// The variables that the command sets, given the project and the
    /// modules that it holds.
    pub fn overrides(&self, project: &Project, go_modules: &Vec<String>) -> (r: Result<
        Vec<(String, String)>,
        Error,
    >)
        ensures
            result_view(r) == self@.overrides(project@, go_modules.deep_view()),
    {
        match project.task_variables(self.arch.as_str()) {
            Err(error) => Err(error),
            Ok(vars) => {
                let mut vars = vars;
                add_build_variables(
                    &mut vars,
                    self.arch.as_str(),
                    "BUILDSYS_VARIANT",
                    self.variant.as_str(),
                    project.release_version.as_str(),
                    go_modules,
                    self.upstream_source_fallback,
                    &self.lookaside_cache,
                );
                push_variable(&mut vars, "BUILDSYS_SBKEYS_DIR", self.sbkeys_dir(project).as_str());
                match &self.infra_toml {
                    Some(infra) => {
                        push_variable(&mut vars, "PUBLISH_INFRA_CONFIG_PATH", infra.as_str());
                    },
                    None => {},
                }
                assert(self@.overrides(project@, go_modules.deep_view()) matches Ok(expected)
                    && vars.deep_view() =~= expected);
                Ok(vars)
            },
        }
    }

    /// The paths that the build needs beside the project directory: the
    /// infrastructure's configuration, where the caller names it. It is a
    /// file, and never created.
    pub fn declared_paths(&self) -> (r: Vec<DeclaredPath>)
        ensures
            r.deep_view() == (match self@.infra_toml {
                Some(infra) => seq![
                    DeclaredPathView {
                        path: infra,
                        kind: PathKind::File,
                        create: CreatePolicy::MustExist,
                    },
                ],
                None => Seq::empty(),
            }),
    {
        let mut declared: Vec<DeclaredPath> = Vec::new();
        match &self.infra_toml {
            Some(infra) => {
                declared.push(
                    DeclaredPath {
                        path: infra.clone(),
                        kind: PathKind::File,
                        create: CreatePolicy::MustExist,
                    },
                );
                assert(declared.deep_view() =~= seq![
                    DeclaredPathView {
                        path: infra@,
                        kind: PathKind::File,
                        create: CreatePolicy::MustExist,
                    },
                ]);
            },
            None => {
                assert(declared.deep_view() =~= Seq::<DeclaredPathView>::empty());
            },
        }
        declared
    }

    /// The run of the task that builds the variant, given the project, the
    /// modules that it holds and the host's environment.
    pub fn task(
        &self,
        project: &Project,
        go_modules: &Vec<String>,
        host_env: &Vec<(String, String)>,
    ) -> (r: Result<TaskInvocation, Error>)
        ensures
            result_view(r) == self@.task(project@, go_modules.deep_view(), host_env.deep_view()),
    {
        match self.overrides(project, go_modules) {
            Err(error) => Err(error),
            Ok(overrides) => {
                let args: Vec<String> = Vec::new();
                assert(args.deep_view() =~= Seq::<Seq<char>>::empty());
                Ok(
                    TaskInvocation {
                        task: String::from_str(BUILD_VARIANT_TASK),
                        args,
                        working_dir: project.project_dir.clone(),
                        env: EnvironmentSurface::build_system().build(host_env, &overrides),
                        makefile: project.makefile(),
                    },
                )
            },
        }
    }

    /// What is fetched out of the helper container before the build, given
    /// the project, its token, the scratch directory of this build, and
    /// whether the project has a key directory.
    pub fn extraction(&self, project: &Project, token: &str, scratch_dir: &str, has_sbkeys: bool)
        -> (r: Extraction)
        ensures
            r@ == self@.extraction(project@, token@, scratch_dir@, has_sbkeys),
    {
        let mut container = String::from_str("sdk-");
        container.append(token);
        let packages_dir = join_path(scratch_dir, SDK_RPMS_DIR);
        let copied_rpms = join_path(packages_dir.as_str(), COPIED_RPMS_DIR);
        Extraction {
            container,
            packages_dir,
            container_rpms: String::from_str(CONTAINER_RPMS),
            copied_rpms,
            rpms_dir: join_path(project.project_dir.as_str(), RPMS_DIR),
            sbkeys_dir: self.sbkeys_dir(project),
            container_sbkeys: if has_sbkeys {
                None
            } else {
                Some(String::from_str(CONTAINER_SBKEYS))
            },
        }
    }
}

} // verus!

//! The tool's commands: what each one installs, sets and runs.

pub mod build_kit;
pub mod build_variant;
pub mod build_clean;
pub mod exec;
pub mod install;

use vstd::prelude::*;
use crate::docker::image::ImageArchUri;
use crate::docker::image::ImageArchUriView;
use crate::error::Error;
use crate::error::ErrorView;
use crate::error::missing_sdk;
use crate::error::result_view;
use crate::path::join_path;
use crate::path::joined_path;
use crate::text::join;
use crate::text::joined_text;
use crate::text::truth;
use crate::text::truth_text;
use crate::variables::push_variable;
use crate::variables::Variable;

verus! {

/// Where the tools are installed, below the project directory.
pub const TOOLS_DIR: &'static str = "build/tools";

/// The task definition file, in the tools directory.
pub const MAKEFILE: &'static str = "Makefile.toml";

/// Where the project keeps its models, below the project directory.
pub const MODELS_DIR: &'static str = "sources/models";

/// The directory that is made below the models where the project has none.
pub const MODELS_VARIANT_DIR: &'static str = "src/variant";

/// A directory that stands in for one that the project lacks: what is created,
/// and what is deleted again once the build step has ended.
#[derive(Debug)]
pub struct Placeholder {
    pub create: String,
    pub owned: String,
}

impl DeepView for Placeholder {
    type V = (Seq<char>, Seq<char>);

    open spec fn deep_view(&self) -> (Seq<char>, Seq<char>) {
        (self.create@, self.owned@)
    }
}

/// A project as far as the commands need it: where it is, the toolchain image
/// it names, if any, and the version it releases.
#[derive(Debug)]
pub struct Project {
    pub project_dir: String,
    pub sdk: Option<ImageArchUri>,
    pub release_version: String,
}

/// What a `Project` stands for.
pub struct ProjectView {
    pub project_dir: Seq<char>,
    pub sdk: Option<ImageArchUriView>,
    pub release_version: Seq<char>,
}

impl DeepView for Project {
    type V = ProjectView;

    open spec fn deep_view(&self) -> ProjectView {
        ProjectView {
            project_dir: self.project_dir@,
            sdk: self.sdk.deep_view(),
            release_version: self.release_version@,
        }
    }
}

impl View for Project {
    type V = ProjectView;

    open spec fn view(&self) -> ProjectView {
        self.deep_view()
    }
}

impl ProjectView {
    /// Where the project's tools are installed.
    pub open spec fn tools_dir(self) -> Seq<char> {
        joined_path(self.project_dir, TOOLS_DIR@)
    }

    /// The project's task definition file.
    pub open spec fn makefile(self) -> Seq<char> {
        joined_path(self.tools_dir(), MAKEFILE@)
    }

    /// Where the project keeps its models.
    pub open spec fn models_dir(self) -> Seq<char> {
        joined_path(self.project_dir, MODELS_DIR@)
    }

    /// What stands in for the models: nothing where the project has them;
    /// else the variant directory below the models is created, and the
    /// models directory is deleted afterwards.
    pub open spec fn models_placeholder(self, has_models: bool) -> Option<(Seq<char>, Seq<char>)> {
        if has_models {
            None
        } else {
            Some((joined_path(self.models_dir(), MODELS_VARIANT_DIR@), self.models_dir()))
        }
    }

    /// The variables that every task of the project gets from the tool: where
    /// the project's root is, the toolchain image for the architecture, and
    /// where the tools are. A project without a toolchain image gets none.
    pub open spec fn task_variables(self, arch: Seq<char>) -> Result<Seq<Variable>, ErrorView> {
        match self.sdk {
            Some(sdk) => Ok(
                seq![
                    ("BUILDSYS_ROOT_DIR"@, self.project_dir),
                    ("TLPRIVATE_SDK_IMAGE"@, (ImageArchUriView { arch, ..sdk }).uri()),
                    ("TWOLITER_TOOLS_DIR"@, self.tools_dir()),
                ],
            ),
            None => Err(missing_sdk()),
        }
    }
}

impl Project {
    /// Where the project's tools are installed.
    pub fn tools_dir(&self) -> (r: String)
        ensures
            r@ == self@.tools_dir(),
    {
        join_path(self.project_dir.as_str(), TOOLS_DIR)
    }

    /// The project's task definition file.
    pub fn makefile(&self) -> (r: String)
        ensures
            r@ == self@.makefile(),
    {
        join_path(self.tools_dir().as_str(), MAKEFILE)
    }

    /// Where the project keeps its models.
    pub fn models_dir(&self) -> (r: String)
        ensures
            r@ == self@.models_dir(),
    {
        join_path(self.project_dir.as_str(), MODELS_DIR)
    }

    /// What stands in for the models while a build runs, given whether the
    /// project has a models directory.
    pub fn models_placeholder(&self, has_models: bool) -> (r: Option<Placeholder>)
        ensures
            r.deep_view() == self@.models_placeholder(has_models),
    {
        if has_models {
            None
        } else {
            let owned = self.models_dir();
            Some(Placeholder { create: join_path(owned.as_str(), MODELS_VARIANT_DIR), owned })
        }
    }

    /// The variables that every task of the project gets from the tool, or
    /// the error of a project that names no toolchain image.
    pub fn task_variables(&self, arch: &str) -> (r: Result<Vec<(String, String)>, Error>)
        ensures
            result_view(r) == self@.task_variables(arch@),
    {
        match &self.sdk {
            None => Err(Error::no_sdk()),
            Some(sdk) => {
                let mut vars: Vec<(String, String)> = Vec::new();
                assert(vars.deep_view() =~= Seq::<Variable>::empty());
                push_variable(&mut vars, "BUILDSYS_ROOT_DIR", self.project_dir.as_str());
                push_variable(&mut vars, "TLPRIVATE_SDK_IMAGE", sdk.with_arch(arch).uri().as_str());
                push_variable(&mut vars, "TWOLITER_TOOLS_DIR", self.tools_dir().as_str());
                assert(self@.task_variables(arch@) matches Ok(expected) && vars.deep_view()
                    =~= expected);
                Ok(vars)
            },
        }
    }
}

/// The variables that a build adds to those of every task: the architecture,
/// what is built, the version, the modules, whether sources may be fetched
/// from upstream, and the lookaside cache where the caller names one.
pub open spec fn build_variables(
    arch: Seq<char>,
    subject: Variable,
    release_version: Seq<char>,
    go_modules: Seq<Seq<char>>,
    upstream_source_fallback: bool,
    lookaside_cache: Option<Seq<char>>,
) -> Seq<Variable> {
    seq![
        ("BUILDSYS_ARCH"@, arch),
        subject,
        ("BUILDSYS_VERSION_IMAGE"@, release_version),
        ("GO_MODULES"@, joined_text(go_modules, " "@)),
        ("BUILDSYS_UPSTREAM_SOURCE_FALLBACK"@, truth_text(upstream_source_fallback)),
    ] + (match lookaside_cache {
        Some(cache) => seq![("BUILDSYS_LOOKASIDE_CACHE"@, cache)],
        None => Seq::empty(),
    })
}

/// Makes the variables that a build adds to those of every task.
pub fn add_build_variables(
    vars: &mut Vec<(String, String)>,
    arch: &str,
    subject_name: &str,
    subject: &str,
    release_version: &str,
    go_modules: &Vec<String>,
    upstream_source_fallback: bool,
    lookaside_cache: &Option<String>,
)
    ensures
        final(vars).deep_view() == old(vars).deep_view() + build_variables(
            arch@,
            (subject_name@, subject@),
            release_version@,
            go_modules.deep_view(),
            upstream_source_fallback,
            lookaside_cache.deep_view(),
        ),
{
    let ghost before = vars.deep_view();
    push_variable(vars, "BUILDSYS_ARCH", arch);
    push_variable(vars, subject_name, subject);
    push_variable(vars, "BUILDSYS_VERSION_IMAGE", release_version);
    push_variable(vars, "GO_MODULES", join(go_modules, " ").as_str());
    push_variable(
        vars,
        "BUILDSYS_UPSTREAM_SOURCE_FALLBACK",
        truth(upstream_source_fallback).as_str(),
    );
    match lookaside_cache {
        Some(cache) => {
            push_variable(vars, "BUILDSYS_LOOKASIDE_CACHE", cache.as_str());
        },
        None => {},
    }
    assert(vars.deep_view() =~= before + build_variables(
        arch@,
        (subject_name@, subject@),
        release_version@,
        go_modules.deep_view(),
        upstream_source_fallback,
        lookaside_cache.deep_view(),
    ));
}

} // verus!

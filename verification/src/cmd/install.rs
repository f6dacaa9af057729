//! The `install` command: put what the tool needs on the build host.

use vstd::prelude::*;
use crate::cmd::Project;
use crate::tools::InstallStateView;
use crate::tools::ToolCache;
use crate::tools::ToolCacheView;

verus! {

/// Install the tools into the project's tools directory.
#[derive(Debug)]
pub struct InstallTools {
    /// Path to the project file. It is searched for when absent.
    pub project_path: Option<String>,
    /// Install anyway, even if the right version is found to be installed.
    pub force: bool,
}

impl InstallTools {
    /// The install that the command asks for: of the bundle with this hash,
    /// into the project's tools directory, forced if the command says so.
    pub fn install(&self, project: &Project, bundle_hash: &str) -> (r: ToolCache)
        ensures
            r@ == (ToolCacheView {
                tools_dir: project@.tools_dir(),
                bundle_hash: bundle_hash@,
                force: self.force,
                state: InstallStateView::CreatingDir,
            }),
    {
        ToolCache::new(project.tools_dir().as_str(), bundle_hash, self.force)
    }
}

} // verus!

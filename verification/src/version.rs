use vstd::prelude::*;

use crate::text::str_eq;

verus! {

/// The kind of build that the version information reports.
#[derive(Clone, Copy, Debug, PartialEq, Eq, Structural)]
pub enum BuildStatus {
    /// Built from a workspace with uncommitted changes.
    DirtyDevelopment,
    /// A debug build.
    Development,
    /// Any other build.
    Release,
}

/// The status for the `GIT_DIRTY` and `PROFILE` values: a dirty workspace first, then
/// a debug profile, else a release.
pub open spec fn spec_build_status(git_dirty: Seq<char>, profile: Seq<char>) -> BuildStatus {
    if git_dirty == "true"@ {
        BuildStatus::DirtyDevelopment
    } else if profile == "debug"@ {
        BuildStatus::Development
    } else {
        BuildStatus::Release
    }
}

/// Works out the build status from the `GIT_DIRTY` and `PROFILE` values.
pub fn build_status(git_dirty: &str, profile: &str) -> (s: BuildStatus)
    ensures
        s == spec_build_status(git_dirty@, profile@),
{
    if str_eq(git_dirty, "true") {
        BuildStatus::DirtyDevelopment
    } else if str_eq(profile, "debug") {
        BuildStatus::Development
    } else {
        BuildStatus::Release
    }
}

impl BuildStatus {
    /// The text shown for the status.
    pub open spec fn spec_description(self) -> Seq<char> {
        match self {
            BuildStatus::DirtyDevelopment => "Development build (dirty workspace)"@,
            BuildStatus::Development => "Development build"@,
            BuildStatus::Release => "Release build"@,
        }
    }

    /// The text shown for the status.
    pub fn description(&self) -> (s: &'static str)
        ensures
            s@ == self.spec_description(),
    {
        match self {
            BuildStatus::DirtyDevelopment => "Development build (dirty workspace)",
            BuildStatus::Development => "Development build",
            BuildStatus::Release => "Release build",
        }
    }
}

/// A dirty workspace is reported whatever the profile; otherwise a debug profile is a
/// development build and any other profile a release; the three descriptions differ.
pub proof fn lemma_build_status_rules(git_dirty: Seq<char>, profile: Seq<char>)
    ensures
        spec_build_status("true"@, profile) == BuildStatus::DirtyDevelopment,
        git_dirty != "true"@ ==> spec_build_status(git_dirty, "debug"@) == BuildStatus::Development,
        git_dirty != "true"@ && profile != "debug"@ ==> spec_build_status(git_dirty, profile)
            == BuildStatus::Release,
        BuildStatus::DirtyDevelopment.spec_description() != BuildStatus::Development.spec_description(),
        BuildStatus::Development.spec_description() != BuildStatus::Release.spec_description(),
        BuildStatus::DirtyDevelopment.spec_description() != BuildStatus::Release.spec_description(),
{
    reveal_strlit("Development build (dirty workspace)");
    reveal_strlit("Development build");
    reveal_strlit("Release build");
    assert("Release build"@[0] != "Development build"@[0]);
    assert("Release build"@[0] != "Development build (dirty workspace)"@[0]);
    assert("Development build"@.len() != "Development build (dirty workspace)"@.len());
}

} // verus!

//! Whether a build is needed before deploying, and how the build tool is
//! invoked.

use crate::config::{local_path, Config, ConfigView};
use vstd::prelude::*;

verus! {

/// What was found on disk for one expected binary. Times count nanoseconds
/// from the Unix epoch.
#[derive(Debug, Clone, Copy, PartialEq, Eq, Structural)]
pub struct ArtifactProbe {
    /// Whether the file is there.
    pub exists: bool,
    /// When it was last modified, where that is known.
    pub modified: Option<i128>,
}

/// What was found on disk for a project: whether the working directory holds a
/// project descriptor, when the descriptor was last modified, and the state
/// of each expected binary.
#[derive(Debug, Clone, PartialEq, Eq)]
pub struct BuildProbe {
    pub project_root: bool,
    pub descriptor_modified: Option<i128>,
    pub artifacts: Vec<ArtifactProbe>,
}

/// A binary is outdated when it is missing, or when both its modification
/// time and the descriptor's are known and the descriptor's is strictly later.
pub open spec fn outdated(descriptor_modified: Option<i128>, artifact: ArtifactProbe) -> bool {
    !artifact.exists || (descriptor_modified is Some && artifact.modified is Some
        && descriptor_modified->0 > artifact.modified->0)
}

/// A build is needed when the working directory is a project and some
/// expected binary is outdated.
pub open spec fn build_needed(
    project_root: bool,
    descriptor_modified: Option<i128>,
    artifacts: Seq<ArtifactProbe>,
) -> bool {
    project_root && exists|i: int|
        0 <= i < artifacts.len() && outdated(descriptor_modified, #[trigger] artifacts[i])
}

impl BuildProbe {
    /// Whether this probe calls for a build.
    pub open spec fn needs_build(&self) -> bool {
        build_needed(self.project_root, self.descriptor_modified, self.artifacts@)
    }
}

/// Decides from what was found on disk whether a build is needed.
pub fn should_auto_build(probe: &BuildProbe) -> (r: bool)
    ensures
        r == probe.needs_build(),
{
    if !probe.project_root {
        return false;
    }
    let mut i: usize = 0;
    while i < probe.artifacts.len()
        invariant
            i <= probe.artifacts.len(),
            probe.project_root,
            forall|j: int|
                0 <= j < i ==> !outdated(probe.descriptor_modified, #[trigger] probe.artifacts@[j]),
        decreases probe.artifacts.len() - i,
    {
        let artifact = probe.artifacts[i];
        if !artifact.exists {
            return true;
        }
        if let (Some(descriptor_time), Some(artifact_time)) = (
            probe.descriptor_modified,
            artifact.modified,
        ) {
            if descriptor_time > artifact_time {
                return true;
            }
        }
        i = i + 1;
    }
    false
}

/// The local paths at which the binaries of `c` are expected, in the order of
/// the binaries.
pub open spec fn expected_paths(c: ConfigView) -> Seq<Seq<char>> {
    Seq::new(c.binaries.len(), |i: int| local_path(c, c.binaries[i]))
}

impl Config {
    /// The local path at which each binary is expected, in the order of the
    /// binaries.
    pub fn artifact_paths(&self) -> (r: Vec<String>)
        ensures
            r.deep_view() == expected_paths(self@),
    {
        let mut paths: Vec<String> = Vec::new();
        let mut i: usize = 0;
        while i < self.binaries.len()
            invariant
                i <= self.binaries.len(),
                paths.len() == i,
                forall|j: int|
                    0 <= j < i ==> (#[trigger] paths@[j])@ == local_path(
                        self@,
                        self.binaries@[j]@,
                    ),
            decreases self.binaries.len() - i,
        {
            paths.push(self.local_artifact_path(self.binaries[i].as_str()));
            i = i + 1;
        }
        assert(paths.deep_view() =~= expected_paths(self@));
        paths
    }

    /// Turns the build flag on where the probe calls for a build; a flag that
    /// is already on stays on. Nothing else changes.
    pub fn detect_build(&mut self, probe: &BuildProbe)
        ensures
            final(self)@ == (ConfigView {
                build: old(self)@.build || probe.needs_build(),
                ..old(self)@
            }),
    {
        if !self.build {
            self.build = should_auto_build(probe);
        }
    }
}

/// The arguments with which the build tool is run: the `build` command and
/// the target triple, then nothing more for a debug build, `--release` for the
/// profile named `release`, and `--profile=` with the name for any other.
pub open spec fn build_command(target: Seq<char>, profile: Seq<char>, debug: bool) -> Seq<
    Seq<char>,
> {
    let head = seq!["build"@, "--target"@, target];
    if debug {
        head
    } else if profile == "release"@ {
        head.push("--release"@)
    } else {
        head.push("--profile="@ + profile)
    }
}

/// The arguments with which the build tool is run for `target` and `profile`.
pub fn build_arguments(target: &str, profile: &str, debug: bool) -> (r: Vec<String>)
    ensures
        r.deep_view() == build_command(target@, profile@, debug),
{
    let mut args: Vec<String> = Vec::new();
    args.push(String::from_str("build"));
    args.push(String::from_str("--target"));
    args.push(String::from_str(target));
    if !debug {
        if String::from_str(profile) == String::from_str("release") {
            args.push(String::from_str("--release"));
        } else {
            args.push(String::from_str("--profile=").concat(profile));
        }
    }
    assert(args.deep_view() =~= build_command(target@, profile@, debug));
    args
}

/// Outside a project no build is ever called for.
pub proof fn lemma_no_project_no_build(
    descriptor_modified: Option<i128>,
    artifacts: Seq<ArtifactProbe>,
)
    ensures
        !build_needed(false, descriptor_modified, artifacts),
{
}

/// In a project with at least one expected binary, a descriptor that was
/// modified strictly later than every binary that exists calls for a build.
pub proof fn lemma_newer_descriptor_needs_build(
    descriptor_modified: i128,
    artifacts: Seq<ArtifactProbe>,
)
    requires
        artifacts.len() > 0,
        forall|i: int|
            0 <= i < artifacts.len() && (#[trigger] artifacts[i]).exists ==> artifacts[i].modified
                is Some && descriptor_modified > artifacts[i].modified->0,
    ensures
        build_needed(true, Some(descriptor_modified), artifacts),
{
    assert(outdated(Some(descriptor_modified), artifacts[0]));
}

/// Where every expected binary exists and none is older than the descriptor,
/// no build is called for.
pub proof fn lemma_fresh_artifacts_need_no_build(
    project_root: bool,
    descriptor_modified: Option<i128>,
    artifacts: Seq<ArtifactProbe>,
)
    requires
        forall|i: int|
            0 <= i < artifacts.len() ==> (#[trigger] artifacts[i]).exists && (descriptor_modified
                is Some && artifacts[i].modified is Some ==> artifacts[i].modified->0
                >= descriptor_modified->0),
    ensures
        !build_needed(project_root, descriptor_modified, artifacts),
{
}

/// A missing binary calls for a build in any project.
pub proof fn lemma_missing_artifact_needs_build(
    descriptor_modified: Option<i128>,
    artifacts: Seq<ArtifactProbe>,
    i: int,
)
    requires
        0 <= i < artifacts.len(),
        !artifacts[i].exists,
    ensures
        build_needed(true, descriptor_modified, artifacts),
{
}

} // verus!

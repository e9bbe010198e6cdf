//! Cascading staleness invalidation over the fixed artifact dependency
//! chain: a change to an upstream input marks every transitively
//! downstream artifact stale, and stale artifacts are purged before any
//! stage runs.

use vstd::prelude::*;

verus! {

/// The build artifacts kept under the project root. Each is a file or
/// directory whose existence means "built".
#[derive(Clone, Copy, PartialEq, Eq, Debug, Structural)]
pub enum Artifact {
    /// The external toolchain binary for the target platform.
    ToolchainBinary,
    /// The rendered script for the dependency-fetch stage.
    FetchScript,
    /// The codebase produced by the dependency-fetch stage.
    BaseCodebase,
    /// The rendered script for the compile stage.
    CompileScript,
    /// The codebase produced by the compile stage.
    ProjectCodebase,
    /// The final compiled entrypoint artifact.
    CompiledEntry,
}

/// Direct dependence: `a` is built from `b`, so `a` is invalid whenever
/// `b` is. Configuration and template inputs are handled separately as
/// change triggers.
pub open spec fn depends_on(a: Artifact, b: Artifact) -> bool {
    match a {
        Artifact::ToolchainBinary => false,
        Artifact::FetchScript => false,
        Artifact::CompileScript => false,
        Artifact::BaseCodebase => b == Artifact::ToolchainBinary || b == Artifact::FetchScript,
        Artifact::ProjectCodebase => b == Artifact::BaseCodebase || b == Artifact::CompileScript,
        Artifact::CompiledEntry => b == Artifact::ProjectCodebase,
    }
}

/// Transitive dependence: `a` is downstream of `b`.
pub open spec fn downstream_of(a: Artifact, b: Artifact) -> bool {
    match a {
        Artifact::ToolchainBinary => false,
        Artifact::FetchScript => false,
        Artifact::CompileScript => false,
        Artifact::BaseCodebase => b == Artifact::ToolchainBinary || b == Artifact::FetchScript,
        Artifact::ProjectCodebase => b == Artifact::BaseCodebase || b == Artifact::CompileScript
            || b == Artifact::ToolchainBinary || b == Artifact::FetchScript,
        Artifact::CompiledEntry => b == Artifact::ProjectCodebase || b == Artifact::BaseCodebase
            || b == Artifact::CompileScript || b == Artifact::ToolchainBinary || b
            == Artifact::FetchScript,
    }
}

/// Every direct dependence is a transitive one.
pub proof fn lemma_downstream_includes_depends(a: Artifact, b: Artifact)
    requires
        depends_on(a, b),
    ensures
        downstream_of(a, b),
{
}

/// Transitive dependence composes.
pub proof fn lemma_downstream_transitive(a: Artifact, b: Artifact, c: Artifact)
    requires
        downstream_of(a, b),
        downstream_of(b, c),
    ensures
        downstream_of(a, c),
{
}

/// The change triggers of one run: whether the toolchain inputs
/// (toolchain version or target platform) differ from the prior run, and
/// whether each rendered stage script differs from its previous render.
#[derive(Clone, Copy, PartialEq, Eq, Debug, Structural)]
pub struct ChangeFlags {
    pub toolchain_diff: bool,
    pub fetch_changed: bool,
    pub compile_changed: bool,
}

/// Which artifacts are stale under the given change triggers and must
/// not be treated as valid this run.
pub open spec fn spec_stale(f: ChangeFlags, a: Artifact) -> bool {
    match a {
        Artifact::ToolchainBinary => f.toolchain_diff,
        Artifact::FetchScript => f.fetch_changed,
        Artifact::CompileScript => f.compile_changed,
        Artifact::BaseCodebase => f.toolchain_diff || f.fetch_changed,
        Artifact::ProjectCodebase => f.toolchain_diff || f.fetch_changed || f.compile_changed,
        Artifact::CompiledEntry => f.toolchain_diff || f.fetch_changed || f.compile_changed,
    }
}

/// The cascade rule: staleness propagates downstream. An artifact is
/// never stale without every artifact that transitively depends on it
/// being stale as well, so a node is never purged without its
/// dependents.
pub proof fn lemma_stale_downstream_closed(f: ChangeFlags, a: Artifact, b: Artifact)
    requires
        spec_stale(f, b),
        downstream_of(a, b),
    ensures
        spec_stale(f, a),
{
}

/// The artifacts that a run deletes before running any stage. The two
/// rendered scripts are not deleted: the renderer overwrites them
/// unconditionally each run.
#[derive(Clone, Copy, PartialEq, Eq, Debug, Structural)]
pub struct PurgeSet {
    pub toolchain: bool,
    pub base: bool,
    pub project: bool,
    pub entry: bool,
}

impl PurgeSet {
    /// The purge set as a predicate on artifacts.
    pub open spec fn purges(self, a: Artifact) -> bool {
        match a {
            Artifact::ToolchainBinary => self.toolchain,
            Artifact::FetchScript => false,
            Artifact::CompileScript => false,
            Artifact::BaseCodebase => self.base,
            Artifact::ProjectCodebase => self.project,
            Artifact::CompiledEntry => self.entry,
        }
    }

    /// No artifact is purged this run.
    pub open spec fn is_empty(self) -> bool {
        !self.toolchain && !self.base && !self.project && !self.entry
    }
}

/// Computes the purge set for one run: exactly the stale artifacts among
/// those that are ever deleted.
pub fn purge_set(f: ChangeFlags) -> (p: PurgeSet)
    ensures
        forall|a: Artifact| #[trigger] p.purges(a) == (spec_stale(f, a) && a
            != Artifact::FetchScript && a != Artifact::CompileScript),
{
    PurgeSet {
        toolchain: f.toolchain_diff,
        base: f.toolchain_diff || f.fetch_changed,
        project: f.toolchain_diff || f.fetch_changed || f.compile_changed,
        entry: f.toolchain_diff || f.fetch_changed || f.compile_changed,
    }
}

} // verus!

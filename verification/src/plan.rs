//! The run plan: from the configuration diff, the template change flags
//! and the observed artifacts, decide once per run what is purged, what
//! is downloaded and which stages execute.

use vstd::prelude::*;
use crate::config::{spec_toolchain_changed, toolchain_changed, FullConfig, FullModel};
use crate::invalidate::{purge_set, spec_stale, Artifact, ChangeFlags, PurgeSet};
use crate::snapshot::{lemma_encode_injective, spec_encode};

verus! {

/// Which artifacts were observed on disk at the start of the run,
/// before any purge.
#[derive(Clone, Copy, PartialEq, Eq, Debug, Structural)]
pub struct Presence {
    pub toolchain: bool,
    pub base: bool,
    pub project: bool,
    pub entry: bool,
}

/// Everything one run will do, computed before any stage executes:
/// which artifacts are purged, whether the toolchain binary must be
/// downloaded, and which stages must run.
#[derive(Clone, Copy, PartialEq, Eq, Debug, Structural)]
pub struct RunPlan {
    pub purges: PurgeSet,
    pub fetch_toolchain: bool,
    pub run_fetch: bool,
    pub run_compile: bool,
}

impl RunPlan {
    /// A run that performs no deletion, no download and no stage.
    pub open spec fn is_noop(self) -> bool {
        self.purges.is_empty() && !self.fetch_toolchain && !self.run_fetch && !self.run_compile
    }
}

/// The change triggers of a run, as decided from the prior and current
/// configurations and the two template change flags.
pub open spec fn spec_change_flags(
    prior: FullModel,
    current: FullModel,
    fetch_changed: bool,
    compile_changed: bool,
) -> ChangeFlags {
    ChangeFlags {
        toolchain_diff: spec_toolchain_changed(prior, current),
        fetch_changed,
        compile_changed,
    }
}

/// The plan that one run must follow. An artifact still counts as
/// present only if it was observed and is not purged this run; a stage
/// runs exactly when its output no longer counts as present.
pub open spec fn spec_plan(
    prior: FullModel,
    current: FullModel,
    fetch_changed: bool,
    compile_changed: bool,
    present: Presence,
) -> RunPlan {
    let f = spec_change_flags(prior, current, fetch_changed, compile_changed);
    let toolchain_after = present.toolchain && !spec_stale(f, Artifact::ToolchainBinary);
    let base_after = present.base && !spec_stale(f, Artifact::BaseCodebase);
    let project_after = present.project && !spec_stale(f, Artifact::ProjectCodebase);
    let entry_after = present.entry && !spec_stale(f, Artifact::CompiledEntry);
    RunPlan {
        purges: PurgeSet {
            toolchain: spec_stale(f, Artifact::ToolchainBinary),
            base: spec_stale(f, Artifact::BaseCodebase),
            project: spec_stale(f, Artifact::ProjectCodebase),
            entry: spec_stale(f, Artifact::CompiledEntry),
        },
        fetch_toolchain: !toolchain_after,
        run_fetch: !base_after,
        run_compile: !project_after || !entry_after,
    }
}

/// Computes the plan for one run from the prior snapshot, the current
/// configuration, the template change flags and the observed artifacts.
pub fn plan_run(
    prior: &FullConfig,
    current: &FullConfig,
    fetch_changed: bool,
    compile_changed: bool,
    present: Presence,
) -> (p: RunPlan)
    ensures
        p == spec_plan(prior@, current@, fetch_changed, compile_changed, present),
{
    let toolchain_diff = toolchain_changed(prior, current);
    let f = ChangeFlags { toolchain_diff, fetch_changed, compile_changed };
    let purges = purge_set(f);
    let toolchain_after = present.toolchain && !purges.toolchain;
    let base_after = present.base && !purges.base;
    let project_after = present.project && !purges.project;
    let entry_after = present.entry && !purges.entry;
    let p = RunPlan {
        purges,
        fetch_toolchain: !toolchain_after,
        run_fetch: !base_after,
        run_compile: !project_after || !entry_after,
    };
    assert(p.purges.purges(Artifact::ToolchainBinary) == purges.toolchain);
    assert(p.purges.purges(Artifact::BaseCodebase) == purges.base);
    assert(p.purges.purges(Artifact::ProjectCodebase) == purges.project);
    assert(p.purges.purges(Artifact::CompiledEntry) == purges.entry);
    assert(p =~~= spec_plan(prior@, current@, fetch_changed, compile_changed, present));
    p
}

/// Idempotence: with an unchanged configuration, unchanged templates and
/// every artifact present, the run deletes nothing, downloads nothing
/// and runs no stage.
pub proof fn lemma_idempotent_run(
    prior: FullModel,
    current: FullModel,
    present: Presence,
)
    requires
        prior == current,
        present.toolchain,
        present.base,
        present.project,
        present.entry,
    ensures
        spec_plan(prior, current, false, false, present).is_noop(),
{
}

/// Idempotence across the snapshot: a prior configuration whose
/// encoding equals the one the last successful run committed is that
/// run's configuration, so with unchanged templates and every artifact
/// in place the next run is a no-op.
pub proof fn lemma_idempotent_after_commit(
    prior: FullModel,
    current: FullModel,
    present: Presence,
)
    requires
        spec_encode(prior) == spec_encode(current),
        present.toolchain,
        present.base,
        present.project,
        present.entry,
    ensures
        spec_plan(prior, current, false, false, present).is_noop(),
{
    lemma_encode_injective(prior, current);
    lemma_idempotent_run(prior, current, present);
}

/// Cascade on a toolchain version change: the toolchain binary, the base
/// codebase, the project codebase and the compiled entry are all purged,
/// the new toolchain is downloaded, and both stages re-run, whatever was
/// present before.
pub proof fn lemma_toolchain_version_cascade(
    prior: FullModel,
    current: FullModel,
    fetch_changed: bool,
    compile_changed: bool,
    present: Presence,
)
    requires
        prior.unison.ucm_version != current.unison.ucm_version,
    ensures
        ({
            let p = spec_plan(prior, current, fetch_changed, compile_changed, present);
            &&& p.purges.toolchain
            &&& p.purges.base
            &&& p.purges.project
            &&& p.purges.entry
            &&& p.fetch_toolchain
            &&& p.run_fetch
            &&& p.run_compile
        }),
{
}

/// Cascade on a compile-only template change: only the project codebase
/// and the compiled entry are purged; the base codebase stays intact and
/// the fetch stage does not re-run.
pub proof fn lemma_compile_only_cascade(
    prior: FullModel,
    current: FullModel,
    present: Presence,
)
    requires
        !spec_toolchain_changed(prior, current),
        present.toolchain,
        present.base,
    ensures
        ({
            let p = spec_plan(prior, current, false, true, present);
            &&& !p.purges.toolchain
            &&& !p.purges.base
            &&& p.purges.project
            &&& p.purges.entry
            &&& !p.fetch_toolchain
            &&& !p.run_fetch
            &&& p.run_compile
        }),
{
}

/// First run from the default state: against the all-empty prior
/// configuration, any configuration that names a toolchain version
/// forces the full cascade - everything is purged, the toolchain is
/// downloaded, and both stages run.
pub proof fn lemma_default_state_full_build(
    current: FullModel,
    fetch_changed: bool,
    compile_changed: bool,
    present: Presence,
)
    requires
        current.unison.ucm_version.len() > 0,
    ensures
        ({
            let p = spec_plan(
                FullModel::empty(),
                current,
                fetch_changed,
                compile_changed,
                present,
            );
            &&& p.purges.toolchain
            &&& p.purges.base
            &&& p.purges.project
            &&& p.purges.entry
            &&& p.fetch_toolchain
            &&& p.run_fetch
            &&& p.run_compile
        }),
{
    assert(FullModel::empty().unison.ucm_version.len() == 0);
}

/// Skip-on-present toolchain: when the toolchain binary is already on
/// disk and neither the toolchain version nor the target platform
/// changed, the plan downloads nothing.
pub proof fn lemma_skip_present_toolchain(
    prior: FullModel,
    current: FullModel,
    fetch_changed: bool,
    compile_changed: bool,
    present: Presence,
)
    requires
        !spec_toolchain_changed(prior, current),
        present.toolchain,
    ensures
        !spec_plan(prior, current, fetch_changed, compile_changed, present).fetch_toolchain,
{
}

} // verus!

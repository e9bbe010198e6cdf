//! The stage execution state machine. The surrounding driver performs
//! each issued action (deletion, download, subprocess, snapshot write)
//! and reports its outcome; the machine decides every transition. The
//! new snapshot is written only after every stage has succeeded and the
//! compiled entry has been seen on disk, and a machine that has failed
//! once never issues another action.

use vstd::prelude::*;
use crate::errors::{BuildError, Stage};
use crate::plan::RunPlan;

verus! {

/// One unit of outside work that the driver must perform next.
#[derive(Clone, Copy, PartialEq, Eq, Debug)]
pub enum Action {
    /// Delete the artifacts named by the plan's purge set, each through
    /// the guarded cleaner.
    RunPurges,
    /// Download and install the toolchain binary for the target.
    DownloadToolchain,
    /// Run the toolchain subprocess for the dependency-fetch stage.
    RunFetchStage,
    /// Run the toolchain subprocess for the compile stage, after
    /// pre-cleaning its destination (the stage is not idempotent).
    RunCompileStage,
    /// Check whether the compiled entry artifact exists on disk.
    CheckCompiledEntry,
    /// Serialize the current configuration and write it to the fixed
    /// snapshot path.
    WriteSnapshot,
}

/// What the driver reports back about the last action.
#[derive(Clone, Copy, PartialEq, Eq, Debug)]
pub enum Outcome {
    /// No action was performed yet: the first call.
    Started,
    /// All purges named by the plan were performed.
    Purged,
    /// The toolchain download and install finished, or failed.
    Downloaded(bool),
    /// The toolchain subprocess exited with this status code.
    StageExited(u32),
    /// Whether the compiled entry artifact exists.
    EntryPresent(bool),
    /// The snapshot write finished, or failed.
    SnapshotWritten(bool),
}

/// What the machine is waiting on.
#[derive(Clone, Copy, PartialEq, Eq, Debug)]
pub enum Phase {
    /// Waiting for the purges to be performed.
    Purging,
    /// Waiting for the toolchain download.
    Downloading,
    /// Waiting for the fetch stage subprocess.
    Fetching,
    /// Waiting for the compile stage subprocess.
    Compiling,
    /// Waiting for the existence check of the compiled entry.
    Verifying,
    /// Waiting for the snapshot write.
    Committing,
    /// The run finished successfully; no further action follows.
    Done,
    /// The run aborted with this error; no further action follows.
    Failed(BuildError),
}

/// The machine's answer to one report: the next action, successful
/// completion, or a fatal abort.
#[derive(Clone, Copy, PartialEq, Eq, Debug)]
pub enum StepOutput {
    /// Perform this action and report its outcome.
    Perform(Action),
    /// The whole run succeeded and the snapshot is committed.
    Finished,
    /// The run is aborted with this fatal error.
    Aborted(BuildError),
}

/// One pipeline run in progress.
pub struct PipelineRun {
    /// The plan the run follows, fixed at start.
    pub plan: RunPlan,
    /// The current phase.
    pub phase: Phase,
}

/// Which outcome report a phase accepts.
pub open spec fn outcome_matches(phase: Phase, outcome: Outcome) -> bool {
    match phase {
        Phase::Purging => outcome == Outcome::Started || outcome == Outcome::Purged,
        Phase::Downloading => outcome is Downloaded,
        Phase::Fetching => outcome is StageExited,
        Phase::Compiling => outcome is StageExited,
        Phase::Verifying => outcome is EntryPresent,
        Phase::Committing => outcome is SnapshotWritten,
        Phase::Done => true,
        Phase::Failed(_) => true,
    }
}

/// After the purges (and any toolchain download) are done, the next
/// pending step of the plan.
pub open spec fn spec_after_toolchain(plan: RunPlan) -> (Phase, StepOutput) {
    if plan.run_fetch {
        (Phase::Fetching, StepOutput::Perform(Action::RunFetchStage))
    } else if plan.run_compile {
        (Phase::Compiling, StepOutput::Perform(Action::RunCompileStage))
    } else {
        (Phase::Verifying, StepOutput::Perform(Action::CheckCompiledEntry))
    }
}

/// The full transition relation of the machine.
pub open spec fn spec_step(m: PipelineRun, outcome: Outcome) -> (PipelineRun, StepOutput) {
    let plan = m.plan;
    match m.phase {
        Phase::Purging => {
            if outcome == Outcome::Started {
                (PipelineRun { plan, phase: Phase::Purging }, StepOutput::Perform(
                    Action::RunPurges,
                ))
            } else if plan.fetch_toolchain {
                (PipelineRun { plan, phase: Phase::Downloading }, StepOutput::Perform(
                    Action::DownloadToolchain,
                ))
            } else {
                let (phase, out) = spec_after_toolchain(plan);
                (PipelineRun { plan, phase }, out)
            }
        },
        Phase::Downloading => {
            if outcome == Outcome::Downloaded(true) {
                let (phase, out) = spec_after_toolchain(plan);
                (PipelineRun { plan, phase }, out)
            } else {
                (
                    PipelineRun { plan, phase: Phase::Failed(BuildError::NetworkError) },
                    StepOutput::Aborted(BuildError::NetworkError),
                )
            }
        },
        Phase::Fetching => {
            if outcome == Outcome::StageExited(0u32) {
                if plan.run_compile {
                    (PipelineRun { plan, phase: Phase::Compiling }, StepOutput::Perform(
                        Action::RunCompileStage,
                    ))
                } else {
                    (PipelineRun { plan, phase: Phase::Verifying }, StepOutput::Perform(
                        Action::CheckCompiledEntry,
                    ))
                }
            } else {
                (
                    PipelineRun {
                        plan,
                        phase: Phase::Failed(
                            BuildError::SubprocessError(Stage::FetchDependencies),
                        ),
                    },
                    StepOutput::Aborted(BuildError::SubprocessError(Stage::FetchDependencies)),
                )
            }
        },
        Phase::Compiling => {
            if outcome == Outcome::StageExited(0u32) {
                (PipelineRun { plan, phase: Phase::Verifying }, StepOutput::Perform(
                    Action::CheckCompiledEntry,
                ))
            } else {
                (
                    PipelineRun {
                        plan,
                        phase: Phase::Failed(BuildError::SubprocessError(Stage::CompileEntry)),
                    },
                    StepOutput::Aborted(BuildError::SubprocessError(Stage::CompileEntry)),
                )
            }
        },
        Phase::Verifying => {
            if outcome == Outcome::EntryPresent(true) {
                (PipelineRun { plan, phase: Phase::Committing }, StepOutput::Perform(
                    Action::WriteSnapshot,
                ))
            } else {
                (
                    PipelineRun { plan, phase: Phase::Failed(BuildError::MissingArtifactError) },
                    StepOutput::Aborted(BuildError::MissingArtifactError),
                )
            }
        },
        Phase::Committing => {
            if outcome == Outcome::SnapshotWritten(true) {
                (PipelineRun { plan, phase: Phase::Done }, StepOutput::Finished)
            } else {
                (
                    PipelineRun { plan, phase: Phase::Failed(BuildError::IoError) },
                    StepOutput::Aborted(BuildError::IoError),
                )
            }
        },
        Phase::Done => (m, StepOutput::Finished),
        Phase::Failed(e) => (m, StepOutput::Aborted(e)),
    }
}

impl PipelineRun {
    /// Begins a run that will follow the given plan. The first call to
    /// [`PipelineRun::step`] with [`Outcome::Started`] issues the purges.
    pub fn start(plan: RunPlan) -> (m: PipelineRun)
        ensures
            m.plan == plan,
            m.phase == Phase::Purging,
    {
        PipelineRun { plan, phase: Phase::Purging }
    }

    /// Consumes the outcome of the previous action and decides the next
    /// step, exactly as the transition relation [`spec_step`] says.
    pub fn step(&mut self, outcome: Outcome) -> (r: StepOutput)
        requires
            outcome_matches(old(self).phase, outcome),
        ensures
            *final(self) == spec_step(*old(self), outcome).0,
            r == spec_step(*old(self), outcome).1,
            final(self).plan == old(self).plan,
    {
        let plan = self.plan;
        match self.phase {
            Phase::Purging => {
                if let Outcome::Started = outcome {
                    StepOutput::Perform(Action::RunPurges)
                } else if plan.fetch_toolchain {
                    self.phase = Phase::Downloading;
                    StepOutput::Perform(Action::DownloadToolchain)
                } else {
                    self.advance_after_toolchain()
                }
            },
            Phase::Downloading => {
                if let Outcome::Downloaded(true) = outcome {
                    self.advance_after_toolchain()
                } else {
                    self.fail(BuildError::NetworkError)
                }
            },
            Phase::Fetching => {
                if let Outcome::StageExited(0u32) = outcome {
                    if plan.run_compile {
                        self.phase = Phase::Compiling;
                        StepOutput::Perform(Action::RunCompileStage)
                    } else {
                        self.phase = Phase::Verifying;
                        StepOutput::Perform(Action::CheckCompiledEntry)
                    }
                } else {
                    self.fail(BuildError::SubprocessError(Stage::FetchDependencies))
                }
            },
            Phase::Compiling => {
                if let Outcome::StageExited(0u32) = outcome {
                    self.phase = Phase::Verifying;
                    StepOutput::Perform(Action::CheckCompiledEntry)
                } else {
                    self.fail(BuildError::SubprocessError(Stage::CompileEntry))
                }
            },
            Phase::Verifying => {
                if let Outcome::EntryPresent(true) = outcome {
                    self.phase = Phase::Committing;
                    StepOutput::Perform(Action::WriteSnapshot)
                } else {
                    self.fail(BuildError::MissingArtifactError)
                }
            },
            Phase::Committing => {
                if let Outcome::SnapshotWritten(true) = outcome {
                    self.phase = Phase::Done;
                    StepOutput::Finished
                } else {
                    self.fail(BuildError::IoError)
                }
            },
            Phase::Done => StepOutput::Finished,
            Phase::Failed(e) => StepOutput::Aborted(e),
        }
    }

    /// Records a fatal error; the machine stays failed forever after.
    fn fail(&mut self, e: BuildError) -> (r: StepOutput)
        ensures
            *final(self) == (PipelineRun { plan: old(self).plan, phase: Phase::Failed(e) }),
            r == StepOutput::Aborted(e),
    {
        self.phase = Phase::Failed(e);
        StepOutput::Aborted(e)
    }

    /// Moves past the toolchain step to the first pending stage.
    fn advance_after_toolchain(&mut self) -> (r: StepOutput)
        ensures
            final(self).plan == old(self).plan,
            (final(self).phase, r) == spec_after_toolchain(old(self).plan),
    {
        if self.plan.run_fetch {
            self.phase = Phase::Fetching;
            StepOutput::Perform(Action::RunFetchStage)
        } else if self.plan.run_compile {
            self.phase = Phase::Compiling;
            StepOutput::Perform(Action::RunCompileStage)
        } else {
            self.phase = Phase::Verifying;
            StepOutput::Perform(Action::CheckCompiledEntry)
        }
    }
}

/// Commit-on-success only: the snapshot write is issued in exactly one
/// situation - the compiled entry was just seen on disk at the end of a
/// run whose stages all succeeded.
pub proof fn lemma_snapshot_only_after_verified_entry(m: PipelineRun, outcome: Outcome)
    ensures
        spec_step(m, outcome).1 == StepOutput::Perform(Action::WriteSnapshot) ==> m.phase
            == Phase::Verifying && outcome == Outcome::EntryPresent(true),
{
}

/// A nonzero exit of either stage subprocess aborts the run with a
/// subprocess error for that stage.
pub proof fn lemma_nonzero_exit_aborts(m: PipelineRun, code: u32)
    requires
        m.phase == Phase::Fetching || m.phase == Phase::Compiling,
        code != 0,
    ensures
        spec_step(m, Outcome::StageExited(code)).0.phase is Failed,
        spec_step(m, Outcome::StageExited(code)).1 == StepOutput::Aborted(
            BuildError::SubprocessError(
                if m.phase == Phase::Fetching {
                    Stage::FetchDependencies
                } else {
                    Stage::CompileEntry
                },
            ),
        ),
{
}

/// A failed machine is absorbing: it never issues another action, so in
/// particular it never issues the snapshot write. Together with the two
/// lemmas above this is the commit-on-success guarantee: after any
/// failed stage the persisted snapshot stays untouched.
pub proof fn lemma_failed_is_absorbing(m: PipelineRun, outcome: Outcome)
    requires
        m.phase is Failed,
    ensures
        spec_step(m, outcome).0 == m,
        !(spec_step(m, outcome).1 is Perform),
{
}

} // verus!

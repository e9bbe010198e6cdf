//! The error taxonomy of the pipeline. Every error is fatal to the run:
//! there is no retry or partial-success mode, and the driver terminates
//! with a nonzero status after reporting the failing stage.

use vstd::prelude::*;

verus! {

/// The two pipeline stages that invoke the external toolchain.
#[derive(Clone, Copy, PartialEq, Eq, Debug)]
pub enum Stage {
    /// Fetch the dependency codebase with the rendered fetch script.
    FetchDependencies,
    /// Compile the entrypoint with the rendered compile script.
    CompileEntry,
}

/// Why a run aborted. Each variant is fatal; the persisted snapshot is
/// not updated when a run ends with any of these.
#[derive(Clone, Copy, PartialEq, Eq, Debug)]
pub enum BuildError {
    /// The manifest metadata section is absent or malformed.
    ConfigError,
    /// A template names a placeholder that is not a configuration field.
    MissingField,
    /// A template opens a placeholder that is never closed.
    TemplateSyntaxError,
    /// A read, write or create failed.
    IoError,
    /// The toolchain download failed.
    NetworkError,
    /// The downloaded archive holds no entry with the expected name.
    ArchiveError,
    /// The toolchain subprocess for the named stage could not be
    /// spawned or exited nonzero.
    SubprocessError(Stage),
    /// A deletion target lies outside the canonical project root.
    PathSafetyError,
    /// The compiled entry artifact is absent although every stage
    /// reported success.
    MissingArtifactError,
}

} // verus!

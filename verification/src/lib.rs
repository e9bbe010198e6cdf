//! Incremental build orchestration for a scripted external toolchain.
//!
//! The crate models an incremental pipeline that prepares a compiled
//! artifact: it diffs the current build configuration against the snapshot
//! left by the last successful run, renders stage scripts from templates,
//! decides which artifacts are stale and must be purged, guards every
//! deletion against escaping the project root, and walks the build stages
//! as a state machine that commits the new snapshot only after full
//! success. All content (configuration fields, templates, scripts, the
//! snapshot file) is handled as character strings; the surrounding driver
//! does the actual file, network and subprocess work.

pub mod cleaner;
pub mod config;
pub mod errors;
pub mod fetcher;
pub mod invalidate;
pub mod pipeline;
pub mod plan;
pub mod snapshot;
pub mod template;
pub mod text;

pub use cleaner::{
    clean_decision, is_descendant, lemma_outside_root_never_removed, CleanDecision,
};
pub use config::{
    config_eq, full_config_eq, toolchain_changed, ConfigModel, Configuration, FullConfig,
    FullModel,
};
pub use errors::{BuildError, Stage};
pub use fetcher::{release_url, toolchain_binary_name};
pub use invalidate::{
    lemma_downstream_includes_depends, lemma_downstream_transitive,
    lemma_stale_downstream_closed, purge_set, Artifact, ChangeFlags, PurgeSet,
};
pub use pipeline::{
    lemma_failed_is_absorbing, lemma_nonzero_exit_aborts,
    lemma_snapshot_only_after_verified_entry, Action, Outcome, Phase, PipelineRun, StepOutput,
};
pub use plan::{
    lemma_compile_only_cascade, lemma_default_state_full_build, lemma_idempotent_after_commit,
    lemma_idempotent_run, lemma_skip_present_toolchain, lemma_toolchain_version_cascade, plan_run,
    Presence, RunPlan,
};
pub use snapshot::{
    encode_snapshot, lemma_encode_injective, lemma_parse_of_encode, parse_snapshot, prior_config,
};
pub use template::{field_for_key, join_deps, render, render_chars, SpecRender};
pub use text::{char_lists_eq, chars_eq, copy_chars, push_chars, str_to_chars};

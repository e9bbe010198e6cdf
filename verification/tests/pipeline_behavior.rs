//! End-to-end behavior of the planning and stage-execution machinery.

use ucm_build::{
    clean_decision, full_config_eq, plan_run, str_to_chars, Action, BuildError, CleanDecision,
    Configuration, FullConfig, Outcome, PipelineRun, Presence, Stage, StepOutput,
};

fn sample_config(ucm_version: &str) -> FullConfig {
    let deps = vec![String::from("base"), String::from("http")];
    let unison = Configuration::new(ucm_version, "tv_app", "releases/main", "main", &deps);
    FullConfig::new(unison, "x86_64-apple-darwin", "/home/user/tv_app")
}

fn all_present() -> Presence {
    Presence { toolchain: true, base: true, project: true, entry: true }
}

#[test]
fn idempotent_second_run_plans_nothing() {
    let prior = sample_config("M4");
    let current = sample_config("M4");
    let p = plan_run(&prior, &current, false, false, all_present());
    assert!(!p.purges.toolchain);
    assert!(!p.purges.base);
    assert!(!p.purges.project);
    assert!(!p.purges.entry);
    assert!(!p.fetch_toolchain);
    assert!(!p.run_fetch);
    assert!(!p.run_compile);
}

#[test]
fn idempotent_second_run_spawns_no_stage() {
    let prior = sample_config("M4");
    let current = sample_config("M4");
    let p = plan_run(&prior, &current, false, false, all_present());
    let mut m = PipelineRun::start(p);
    assert_eq!(m.step(Outcome::Started), StepOutput::Perform(Action::RunPurges));
    // Nothing to download and no stage to run: straight to the final check.
    assert_eq!(m.step(Outcome::Purged), StepOutput::Perform(Action::CheckCompiledEntry));
    assert_eq!(
        m.step(Outcome::EntryPresent(true)),
        StepOutput::Perform(Action::WriteSnapshot)
    );
    assert_eq!(m.step(Outcome::SnapshotWritten(true)), StepOutput::Finished);
}

#[test]
fn version_change_cascades_everything() {
    let prior = sample_config("M4");
    let current = sample_config("M5");
    let p = plan_run(&prior, &current, false, false, all_present());
    assert!(p.purges.toolchain);
    assert!(p.purges.base);
    assert!(p.purges.project);
    assert!(p.purges.entry);
    assert!(p.fetch_toolchain);
    assert!(p.run_fetch);
    assert!(p.run_compile);
}

#[test]
fn version_change_runs_both_stages() {
    let prior = sample_config("M4");
    let current = sample_config("M5");
    let p = plan_run(&prior, &current, false, false, all_present());
    let mut m = PipelineRun::start(p);
    assert_eq!(m.step(Outcome::Started), StepOutput::Perform(Action::RunPurges));
    assert_eq!(m.step(Outcome::Purged), StepOutput::Perform(Action::DownloadToolchain));
    assert_eq!(
        m.step(Outcome::Downloaded(true)),
        StepOutput::Perform(Action::RunFetchStage)
    );
    assert_eq!(
        m.step(Outcome::StageExited(0)),
        StepOutput::Perform(Action::RunCompileStage)
    );
    assert_eq!(
        m.step(Outcome::StageExited(0)),
        StepOutput::Perform(Action::CheckCompiledEntry)
    );
    assert_eq!(
        m.step(Outcome::EntryPresent(true)),
        StepOutput::Perform(Action::WriteSnapshot)
    );
    assert_eq!(m.step(Outcome::SnapshotWritten(true)), StepOutput::Finished);
}

#[test]
fn compile_only_change_keeps_base() {
    let prior = sample_config("M4");
    let current = sample_config("M4");
    let p = plan_run(&prior, &current, false, true, all_present());
    assert!(!p.purges.toolchain);
    assert!(!p.purges.base);
    assert!(p.purges.project);
    assert!(p.purges.entry);
    assert!(!p.fetch_toolchain);
    assert!(!p.run_fetch);
    assert!(p.run_compile);
    // The fetch stage is never invoked: the machine goes straight to compile.
    let mut m = PipelineRun::start(p);
    assert_eq!(m.step(Outcome::Started), StepOutput::Perform(Action::RunPurges));
    assert_eq!(m.step(Outcome::Purged), StepOutput::Perform(Action::RunCompileStage));
}

#[test]
fn missing_snapshot_equals_empty_default() {
    let fallback = ucm_build::prior_config(&None);
    assert!(full_config_eq(&fallback, &FullConfig::empty()));
}

#[test]
fn first_run_from_default_state_builds_everything() {
    let current = sample_config("M4");
    let from_missing = plan_run(
        &ucm_build::prior_config(&None),
        &current,
        false,
        false,
        all_present(),
    );
    let from_empty = plan_run(&FullConfig::empty(), &current, false, false, all_present());
    assert_eq!(from_missing, from_empty);
    assert!(from_missing.purges.toolchain);
    assert!(from_missing.purges.base);
    assert!(from_missing.purges.project);
    assert!(from_missing.purges.entry);
    assert!(from_missing.fetch_toolchain);
    assert!(from_missing.run_fetch);
    assert!(from_missing.run_compile);
}

fn components(parts: &[&str]) -> Vec<String> {
    parts.iter().map(|p| p.to_string()).collect()
}

#[test]
fn cleanup_outside_root_is_refused() {
    let root = components(&["home", "user", "tv_app"]);
    let outside = components(&["etc", "passwd"]);
    assert_eq!(clean_decision(true, &outside, &root), CleanDecision::Refuse);
    // A sibling that shares a prefix of the name but not the component.
    let sibling = components(&["home", "user", "tv_app_backup", "build"]);
    assert_eq!(clean_decision(true, &sibling, &root), CleanDecision::Refuse);
    // A symlink that canonicalized to a parent of the root.
    let parent = components(&["home", "user"]);
    assert_eq!(clean_decision(true, &parent, &root), CleanDecision::Refuse);
}

#[test]
fn cleanup_inside_root_is_allowed_and_absent_skipped() {
    let root = components(&["home", "user", "tv_app"]);
    let inside = components(&["home", "user", "tv_app", "build", "base"]);
    assert_eq!(clean_decision(true, &inside, &root), CleanDecision::Remove);
    assert_eq!(clean_decision(false, &inside, &root), CleanDecision::Skip);
    let outside = components(&["etc", "passwd"]);
    assert_eq!(clean_decision(false, &outside, &root), CleanDecision::Skip);
}

#[test]
fn toolchain_present_and_unchanged_is_not_downloaded() {
    let prior = sample_config("M4");
    let current = sample_config("M4");
    // Even with both templates changed, the toolchain itself stays.
    let p = plan_run(&prior, &current, true, true, all_present());
    assert!(!p.fetch_toolchain);
    assert!(!p.purges.toolchain);
    let mut m = PipelineRun::start(p);
    assert_eq!(m.step(Outcome::Started), StepOutput::Perform(Action::RunPurges));
    // First issued work is the fetch stage, not a download.
    assert_eq!(m.step(Outcome::Purged), StepOutput::Perform(Action::RunFetchStage));
}

#[test]
fn failed_fetch_stage_never_commits() {
    let prior = sample_config("M4");
    let current = sample_config("M5");
    let p = plan_run(&prior, &current, false, false, all_present());
    let mut m = PipelineRun::start(p);
    assert_eq!(m.step(Outcome::Started), StepOutput::Perform(Action::RunPurges));
    assert_eq!(m.step(Outcome::Purged), StepOutput::Perform(Action::DownloadToolchain));
    assert_eq!(
        m.step(Outcome::Downloaded(true)),
        StepOutput::Perform(Action::RunFetchStage)
    );
    // Simulated nonzero exit: the run aborts and stays aborted, so the
    // snapshot write is never issued.
    assert_eq!(
        m.step(Outcome::StageExited(3)),
        StepOutput::Aborted(BuildError::SubprocessError(Stage::FetchDependencies))
    );
    assert_eq!(
        m.step(Outcome::Started),
        StepOutput::Aborted(BuildError::SubprocessError(Stage::FetchDependencies))
    );
}

#[test]
fn failed_compile_stage_never_commits() {
    let prior = sample_config("M4");
    let current = sample_config("M4");
    let p = plan_run(&prior, &current, false, true, all_present());
    let mut m = PipelineRun::start(p);
    assert_eq!(m.step(Outcome::Started), StepOutput::Perform(Action::RunPurges));
    assert_eq!(m.step(Outcome::Purged), StepOutput::Perform(Action::RunCompileStage));
    assert_eq!(
        m.step(Outcome::StageExited(1)),
        StepOutput::Aborted(BuildError::SubprocessError(Stage::CompileEntry))
    );
    assert_eq!(
        m.step(Outcome::Purged),
        StepOutput::Aborted(BuildError::SubprocessError(Stage::CompileEntry))
    );
}

#[test]
fn missing_entry_after_success_aborts() {
    let prior = sample_config("M4");
    let current = sample_config("M4");
    let p = plan_run(&prior, &current, false, true, all_present());
    let mut m = PipelineRun::start(p);
    assert_eq!(m.step(Outcome::Started), StepOutput::Perform(Action::RunPurges));
    assert_eq!(m.step(Outcome::Purged), StepOutput::Perform(Action::RunCompileStage));
    assert_eq!(
        m.step(Outcome::StageExited(0)),
        StepOutput::Perform(Action::CheckCompiledEntry)
    );
    // The toolchain exited zero but produced nothing: still fatal.
    assert_eq!(
        m.step(Outcome::EntryPresent(false)),
        StepOutput::Aborted(BuildError::MissingArtifactError)
    );
}

#[test]
fn failed_download_aborts() {
    let current = sample_config("M4");
    let p = plan_run(&FullConfig::empty(), &current, false, false, all_present());
    let mut m = PipelineRun::start(p);
    assert_eq!(m.step(Outcome::Started), StepOutput::Perform(Action::RunPurges));
    assert_eq!(m.step(Outcome::Purged), StepOutput::Perform(Action::DownloadToolchain));
    assert_eq!(
        m.step(Outcome::Downloaded(false)),
        StepOutput::Aborted(BuildError::NetworkError)
    );
}

#[test]
fn failed_snapshot_write_is_io_error() {
    let prior = sample_config("M4");
    let current = sample_config("M4");
    let p = plan_run(&prior, &current, false, false, all_present());
    let mut m = PipelineRun::start(p);
    assert_eq!(m.step(Outcome::Started), StepOutput::Perform(Action::RunPurges));
    assert_eq!(m.step(Outcome::Purged), StepOutput::Perform(Action::CheckCompiledEntry));
    assert_eq!(
        m.step(Outcome::EntryPresent(true)),
        StepOutput::Perform(Action::WriteSnapshot)
    );
    assert_eq!(
        m.step(Outcome::SnapshotWritten(false)),
        StepOutput::Aborted(BuildError::IoError)
    );
}

#[test]
fn missing_artifacts_rebuild_without_purges() {
    let prior = sample_config("M4");
    let current = sample_config("M4");
    // Nothing changed, but the project codebase and entry are missing.
    let present = Presence { toolchain: true, base: true, project: false, entry: false };
    let p = plan_run(&prior, &current, false, false, present);
    assert!(!p.purges.toolchain);
    assert!(!p.purges.base);
    assert!(!p.purges.project);
    assert!(!p.purges.entry);
    assert!(!p.fetch_toolchain);
    assert!(!p.run_fetch);
    assert!(p.run_compile);
}

#[test]
fn config_diffing_sees_every_field() {
    let a = sample_config("M4");
    let mut deps = vec![String::from("base"), String::from("http")];
    let b = FullConfig::new(
        Configuration::new("M4", "tv_app", "releases/main", "main", &deps),
        "x86_64-apple-darwin",
        "/home/user/tv_app",
    );
    assert!(full_config_eq(&a, &b));
    deps.push(String::from("json"));
    let c = FullConfig::new(
        Configuration::new("M4", "tv_app", "releases/main", "main", &deps),
        "x86_64-apple-darwin",
        "/home/user/tv_app",
    );
    assert!(!full_config_eq(&a, &c));
    assert!(ucm_build::toolchain_changed(&a, &sample_config("M5")));
    assert!(!ucm_build::toolchain_changed(&a, &b));
    // A target platform change is a toolchain change as well.
    let d = FullConfig::new(
        Configuration::new("M4", "tv_app", "releases/main", "main", &deps),
        "aarch64-apple-darwin",
        "/home/user/tv_app",
    );
    assert!(ucm_build::toolchain_changed(&a, &d));
}

#[test]
fn release_names_follow_the_convention() {
    let url = ucm_build::release_url(
        &str_to_chars("M5j"),
        &str_to_chars("ucm-macos.tar.gz"),
    );
    let expected: Vec<char> =
        "https://github.com/unisonweb/unison/releases/download/M5j/ucm-macos.tar.gz"
            .chars()
            .collect();
    assert_eq!(url, expected);
    let name = ucm_build::toolchain_binary_name(&str_to_chars("x86_64-apple-darwin"));
    let expected_name: Vec<char> = "ucm-x86_64-apple-darwin".chars().collect();
    assert_eq!(name, expected_name);
}

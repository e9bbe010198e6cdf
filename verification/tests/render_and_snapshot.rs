//! The template renderer and the snapshot codec on concrete inputs.

use ucm_build::{
    encode_snapshot, full_config_eq, parse_snapshot, prior_config, render, str_to_chars,
    BuildError, Configuration, FullConfig,
};

fn sample_unison() -> Configuration {
    let deps = vec![String::from("base"), String::from("http")];
    Configuration::new("M4", "tv_app", "releases/main", "main", &deps)
}

fn sample_full() -> FullConfig {
    FullConfig::new(sample_unison(), "x86_64-apple-darwin", "/home/user/tv_app")
}

fn chars(s: &str) -> Vec<char> {
    s.chars().collect()
}

#[test]
fn render_substitutes_every_placeholder() {
    let template = str_to_chars(
        "pull {project}/{branch} as {ucm_version}\n{dependencies_cache}\nrun {entrypoint}\n",
    );
    let (content, changed) = render(&template, &sample_unison(), &None).unwrap();
    assert_eq!(
        content,
        chars("pull tv_app/releases/main as M4\nbase\nhttp\nrun main\n")
    );
    assert!(changed);
}

#[test]
fn render_joins_dependencies_one_per_line() {
    let template = str_to_chars("{dependencies_cache}");
    let deps = vec![String::from("a"), String::from("b"), String::from("c")];
    let cfg = Configuration::new("M4", "p", "b", "e", &deps);
    let (content, _) = render(&template, &cfg, &None).unwrap();
    assert_eq!(content, chars("a\nb\nc"));
    let empty_deps: Vec<String> = Vec::new();
    let cfg = Configuration::new("M4", "p", "b", "e", &empty_deps);
    let (content, changed) = render(&template, &cfg, &None).unwrap();
    assert_eq!(content, chars(""));
    assert!(!changed);
}

#[test]
fn render_reports_unknown_placeholder() {
    let template = str_to_chars("pull {project}/{tag}");
    assert_eq!(
        render(&template, &sample_unison(), &None),
        Err(BuildError::MissingField)
    );
}

#[test]
fn render_reports_unclosed_placeholder() {
    let template = str_to_chars("pull {project");
    assert_eq!(
        render(&template, &sample_unison(), &None),
        Err(BuildError::TemplateSyntaxError)
    );
}

#[test]
fn render_change_detection_is_byte_for_byte() {
    let template = str_to_chars("v={ucm_version}");
    let (content, changed) = render(&template, &sample_unison(), &None).unwrap();
    assert_eq!(content, chars("v=M4"));
    assert!(changed);
    let (_, changed) = render(&template, &sample_unison(), &Some(chars("v=M4"))).unwrap();
    assert!(!changed);
    let (_, changed) = render(&template, &sample_unison(), &Some(chars("v=M3"))).unwrap();
    assert!(changed);
    let (_, changed) = render(&template, &sample_unison(), &Some(chars(""))).unwrap();
    assert!(changed);
}

#[test]
fn render_leaves_plain_text_alone() {
    let template = str_to_chars("no placeholders here }{project} done");
    let (content, _) = render(&template, &sample_unison(), &None).unwrap();
    assert_eq!(content, chars("no placeholders here }tv_app done"));
}

#[test]
fn snapshot_round_trips() {
    let config = sample_full();
    let text = encode_snapshot(&config);
    let back = parse_snapshot(&text).unwrap();
    assert!(full_config_eq(&config, &back));
}

#[test]
fn snapshot_text_is_canonical_json() {
    let text = encode_snapshot(&sample_full());
    let expected = "{\"unison\":{\"ucm_version\":\"M4\",\"project\":\"tv_app\",\"branch\":\"releases/main\",\"entrypoint\":\"main\",\"dependencies_cache\":[\"base\",\"http\"]},\"target_triple\":\"x86_64-apple-darwin\",\"project_root\":\"/home/user/tv_app\"}";
    assert_eq!(text, chars(expected));
}

#[test]
fn snapshot_escapes_quotes_and_backslashes() {
    let deps = vec![String::from("we\"ird")];
    let unison = Configuration::new("M4", "a\\b", "r", "e", &deps);
    let config = FullConfig::new(unison, "t", "C:\\proj");
    let text = encode_snapshot(&config);
    let as_string: String = text.iter().collect();
    assert!(as_string.contains("a\\\\b"));
    assert!(as_string.contains("we\\\"ird"));
    let back = parse_snapshot(&text).unwrap();
    assert!(full_config_eq(&config, &back));
}

#[test]
fn snapshot_rejects_garbage() {
    assert!(parse_snapshot(&chars("")).is_none());
    assert!(parse_snapshot(&chars("not json at all")).is_none());
    assert!(parse_snapshot(&chars("{\"unison\":{}}")).is_none());
    // Valid JSON, wrong shape.
    assert!(parse_snapshot(&chars("{\"unison\":null}")).is_none());
    // Canonical text with trailing garbage.
    let mut text = encode_snapshot(&sample_full());
    text.push(' ');
    assert!(parse_snapshot(&text).is_none());
}

#[test]
fn snapshot_rejects_non_canonical_spacing() {
    // Semantically the same object, but not the canonical rendering, so
    // it counts as unreadable and forces a full rebuild.
    let spaced = "{ \"unison\": {\"ucm_version\": \"M4\", \"project\": \"tv_app\", \"branch\": \"releases/main\", \"entrypoint\": \"main\", \"dependencies_cache\": [\"base\", \"http\"]}, \"target_triple\": \"x86_64-apple-darwin\", \"project_root\": \"/home/user/tv_app\"}";
    assert!(parse_snapshot(&chars(spaced)).is_none());
}

#[test]
fn unreadable_prior_snapshot_falls_back_to_default() {
    let from_garbage = prior_config(&Some(chars("corrupt")));
    assert!(full_config_eq(&from_garbage, &FullConfig::empty()));
    let from_missing = prior_config(&None);
    assert!(full_config_eq(&from_missing, &FullConfig::empty()));
    let text = encode_snapshot(&sample_full());
    let from_good = prior_config(&Some(text));
    assert!(full_config_eq(&from_good, &sample_full()));
}

#[test]
fn empty_configs_compare_equal_and_differ_from_real_ones() {
    assert!(full_config_eq(&FullConfig::empty(), &FullConfig::empty()));
    assert!(!full_config_eq(&FullConfig::empty(), &sample_full()));
    let empty_round = parse_snapshot(&encode_snapshot(&FullConfig::empty())).unwrap();
    assert!(full_config_eq(&empty_round, &FullConfig::empty()));
}

#[test]
fn text_helpers_compare_by_contents() {
    assert!(ucm_build::chars_eq(&chars("abc"), &str_to_chars("abc")));
    assert!(!ucm_build::chars_eq(&chars("abc"), &chars("abd")));
    assert!(!ucm_build::chars_eq(&chars("abc"), &chars("ab")));
    let copied = ucm_build::copy_chars(&chars("xyz"));
    assert_eq!(copied, chars("xyz"));
    let mut out = chars("ab");
    ucm_build::push_chars(&mut out, &chars("cd"));
    assert_eq!(out, chars("abcd"));
}

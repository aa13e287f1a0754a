//! Models of a local Ollama instance.
use recursive_tui::ollama_probe::{
    base_name, env_probe_disabled, http_body, parse_tags, plan_probe, probe_outcome, ModelSpec,
    OllamaPickerModels, ProbeCache, ProbePlan, DEFAULT_CONTEXT_WINDOW, PROBE_TTL_NANOS,
};

fn bundled() -> Vec<ModelSpec> {
    vec![ModelSpec { name: "llama3.2".into(), context_window: 131_072, pricing: None }]
}

#[test]
fn parse_tags_extracts_names_from_name_field() {
    let body = br#"{"models":[{"name":"llama3.2:latest"},{"name":"qwen2.5-coder:latest"}]}"#;
    let models = parse_tags(body, &bundled());
    assert_eq!(models.len(), 2);
    assert_eq!(models[0].name, "llama3.2:latest");
    assert_eq!(models[1].name, "qwen2.5-coder:latest");
}

#[test]
fn parse_tags_falls_back_to_model_field() {
    let body = br#"{"models":[{"model":"mistral:7b"}]}"#;
    let models = parse_tags(body, &bundled());
    assert_eq!(models.len(), 1);
    assert_eq!(models[0].name, "mistral:7b");
}

#[test]
fn parse_tags_dedupes_and_sorts() {
    let body = br#"{"models":[{"name":"b:latest"},{"name":"a:latest"},{"name":"b:latest"}]}"#;
    let models = parse_tags(body, &bundled());
    assert_eq!(
        models.iter().map(|m| m.name.as_str()).collect::<Vec<_>>(),
        vec!["a:latest", "b:latest"]
    );
}

#[test]
fn parse_tags_reuses_bundled_context_window_for_known_model() {
    let body = br#"{"models":[{"name":"llama3.2:latest"}]}"#;
    let models = parse_tags(body, &bundled());
    assert_eq!(models[0].context_window, bundled()[0].context_window);
}

#[test]
fn parse_tags_uses_default_context_window_for_unknown_model() {
    let body = br#"{"models":[{"name":"totally-custom:latest"}]}"#;
    let models = parse_tags(body, &bundled());
    assert_eq!(models[0].context_window, DEFAULT_CONTEXT_WINDOW);
}

#[test]
fn parse_tags_empty_models_array_yields_empty_vec() {
    let body = br#"{"models":[]}"#;
    assert!(parse_tags(body, &bundled()).is_empty());
}

#[test]
fn parse_tags_malformed_json_yields_empty_vec() {
    assert!(parse_tags(b"not json", &bundled()).is_empty());
    assert!(parse_tags(b"{}", &bundled()).is_empty());
}

#[test]
fn http_body_splits_headers_and_body() {
    let raw = b"HTTP/1.0 200 OK\r\nContent-Length: 2\r\n\r\n{}";
    assert_eq!(http_body(raw), Some(b"{}".as_slice()));
}

#[test]
fn http_body_returns_none_without_separator() {
    assert_eq!(http_body(b"no separator here"), None);
}

#[test]
fn base_name_strips_tag_suffix() {
    assert_eq!(base_name("llama3.2:latest"), "llama3.2");
    assert_eq!(base_name("qwen2.5-coder"), "qwen2.5-coder");
}

#[test]
fn env_probe_disabled_recognises_off_variants() {
    let cases = [
        ("off", true),
        ("OFF", true),
        ("0", true),
        ("false", true),
        ("on", false),
        ("1", false),
        ("yes", false),
    ];
    for (val, expected) in cases {
        assert_eq!(env_probe_disabled(Some(val)), expected, "env={val}");
    }
    assert!(!env_probe_disabled(None));
}

#[test]
fn picker_returns_bundled_when_env_disables_probe() {
    let cache = ProbeCache::new();
    assert_eq!(cache.plan(true), ProbePlan::Bundled);
}

#[test]
fn cache_serves_repeated_calls_within_ttl() {
    let mut cache = ProbeCache::new();
    assert_eq!(cache.plan(false), ProbePlan::Probe);
    cache.store(OllamaPickerModels::Local(bundled()));
    assert_eq!(cache.plan(false), ProbePlan::Cached);
    assert!(matches!(&cache.entry, Some((_, OllamaPickerModels::Local(m))) if m.len() == 1));
}

#[test]
fn invalidate_cache_forces_reprobe() {
    let mut cache = ProbeCache::new();
    cache.store(OllamaPickerModels::Unreachable);
    assert_eq!(cache.plan(false), ProbePlan::Cached);
    cache.invalidate_cache();
    assert_eq!(cache.plan(false), ProbePlan::Probe);
}

#[test]
fn answer_grows_stale_at_the_end_of_its_time() {
    assert_eq!(plan_probe(false, Some(PROBE_TTL_NANOS - 1)), ProbePlan::Cached);
    assert_eq!(plan_probe(false, Some(PROBE_TTL_NANOS)), ProbePlan::Probe);
    assert_eq!(plan_probe(false, None), ProbePlan::Probe);
    assert_eq!(plan_probe(true, Some(0)), ProbePlan::Bundled);
}

#[test]
fn probe_without_an_answer_is_unreachable() {
    assert!(matches!(probe_outcome(None, &bundled()), OllamaPickerModels::Unreachable));
    assert!(matches!(
        probe_outcome(Some(b"no separator"), &bundled()),
        OllamaPickerModels::Unreachable
    ));
    let raw = b"HTTP/1.0 200 OK\r\n\r\n{\"models\":[{\"name\":\"llama3.2:1b\"}]}";
    match probe_outcome(Some(raw), &bundled()) {
        OllamaPickerModels::Local(m) => {
            assert_eq!(m.len(), 1);
            assert_eq!(m[0].name, "llama3.2:1b");
            assert_eq!(m[0].context_window, 131_072);
        }
        other => panic!("expected models, got {other:?}"),
    }
}

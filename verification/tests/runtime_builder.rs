//! What is decided before a runtime is built.
use recursive_tui::backend::worker::{Effect, Worker};
use recursive_tui::events::{UiEvent, UserAction};
use recursive_tui::model_picker::ProviderPreset;
use recursive_tui::runtime_builder::{
    build_provider_for_model, build_runtime, effective_api_key, offline_no_provider_reason,
    provider_kind, sandbox_extra_roots, skill_search_paths, startup_key, AccessTier, BuildFailure,
    ProviderKind, RuntimeBuild,
};

fn deepseek(key: Option<&str>) -> Vec<ProviderPreset> {
    vec![ProviderPreset {
        id: "deepseek".into(),
        name: "DeepSeek".into(),
        provider_type: "openai".into(),
        api_base: "https://api.deepseek.com".into(),
        anthropic_api_base: None,
        key_env: "DEEPSEEK_API_KEY".into(),
        key: key.map(|k| k.to_string()),
        models: vec![],
    }]
}

#[test]
fn offline_mode_and_config_file_resolution() {
    let failure = startup_key(Ok(None)).err().expect("no key");
    let state = build_runtime(Err(failure));
    let (mut w, _) = Worker::start(state);
    let effects = w.handle_action(UserAction::SendMessage("hi".into()), false);
    match &effects[0] {
        Effect::Emit(UiEvent::Error { message }) => {
            assert!(
                message.contains("No LLM provider configured"),
                "expected offline reason, got {message:?}"
            );
            assert!(
                message.contains("recursive init"),
                "offline reason should point to the wizard, got {message:?}"
            );
            assert!(
                message.contains("recursive config set"),
                "offline reason should mention CLI config helper, got {message:?}"
            );
        }
        other => panic!("expected an error, got {other:?}"),
    }
    let key = startup_key(Ok(Some("sk-test-from-config".into())));
    assert!(matches!(key, Ok(k) if k == "sk-test-from-config"));
    assert!(matches!(build_runtime(Ok(())), RuntimeBuild::Ready));
}

#[test]
fn offline_backend_emits_runtime_offline_at_init() {
    let (_, first) = Worker::start(build_runtime(Err(BuildFailure::NoProvider)));
    match first {
        UiEvent::RuntimeOffline { reason } => assert!(
            reason.contains("No LLM provider configured"),
            "init offline reason should explain, got {reason:?}"
        ),
        other => panic!("expected RuntimeOffline, got {other:?}"),
    }
}

#[test]
fn offline_no_provider_reason_mentions_init_and_config() {
    let r = offline_no_provider_reason();
    assert!(r.contains("recursive init"), "reason: {r:?}");
    assert!(r.contains("recursive config set"), "reason: {r:?}");
    assert!(r.contains("set-secret"), "reason: {r:?}");
}

#[test]
fn effective_api_key_treats_empty_as_missing() {
    assert_eq!(effective_api_key(None), None);
    assert_eq!(effective_api_key(Some("")), None);
    assert_eq!(effective_api_key(Some("sk-real")), Some("sk-real"));
}

#[test]
fn build_provider_selects_anthropic_for_anthropic_type() {
    assert_eq!(provider_kind("anthropic"), ProviderKind::Anthropic);
}

#[test]
fn build_provider_selects_openai_for_other_types() {
    assert_eq!(provider_kind("openai"), ProviderKind::OpenAi);
}

#[test]
fn build_provider_for_model_unknown_preset_errors() {
    let err = build_provider_for_model(&deepseek(None), Ok(None), "definitely-not-a-preset", "any")
        .err()
        .expect("expected error for unknown preset");
    assert!(
        err.message().contains("unknown provider preset"),
        "expected unknown-preset error, got: {err:?}"
    );
}

#[test]
fn build_provider_for_model_no_api_key_errors() {
    let err = build_provider_for_model(&deepseek(None), Ok(None), "deepseek", "deepseek-chat")
        .err()
        .expect("expected error for missing api key");
    assert!(
        err.message().contains("no API key"),
        "expected no-api-key error, got: {err:?}"
    );
}

#[test]
fn build_provider_for_model_uses_preset_key_env() {
    let provider = build_provider_for_model(
        &deepseek(Some("sk-deepseek-dummy")),
        Ok(None),
        "deepseek",
        "deepseek-chat",
    )
    .expect("provider builds with preset key_env set");
    assert_eq!(provider_kind(&provider.provider_type), ProviderKind::OpenAi);
    assert_eq!(provider.api_key, "sk-deepseek-dummy");
    assert_eq!(provider.model, "deepseek-chat");
}

#[test]
fn build_provider_for_model_falls_back_to_config_api_key() {
    let provider = build_provider_for_model(
        &deepseek(None),
        Ok(Some("sk-shared".into())),
        "deepseek",
        "deepseek-chat",
    )
    .expect("provider builds via config api_key fallback");
    assert_eq!(provider_kind(&provider.provider_type), ProviderKind::OpenAi);
    assert_eq!(provider.api_key, "sk-shared");
}

#[test]
fn sandbox_extra_roots_maps_rw_and_ro_tiers() {
    let roots = sandbox_extra_roots(&vec!["/rw/a".into(), "/rw/b".into()], &vec!["/ro/x".into()]);
    assert_eq!(roots.len(), 3);
    assert_eq!(roots[0], ("/rw/a".to_string(), AccessTier::ReadWrite));
    assert_eq!(roots[1], ("/rw/b".to_string(), AccessTier::ReadWrite));
    assert_eq!(roots[2], ("/ro/x".to_string(), AccessTier::ReadOnly));
}

#[test]
fn sandbox_extra_roots_empty_when_config_has_none() {
    assert!(sandbox_extra_roots(&vec![], &vec![]).is_empty());
}

#[test]
fn failures_say_what_failed() {
    let reason = |f| match build_runtime(Err(f)) {
        RuntimeBuild::Offline { reason } => reason,
        other => panic!("expected Offline, got {other:?}"),
    };
    assert_eq!(
        reason(BuildFailure::Config("bad toml".into())),
        "failed to load configuration: bad toml"
    );
    assert_eq!(
        reason(BuildFailure::Provider("tls".into())),
        "failed to build HTTP client: tls"
    );
    assert_eq!(
        reason(BuildFailure::Runtime("boom".into())),
        "failed to build agent runtime: boom"
    );
    assert!(matches!(startup_key(Err("bad".into())), Err(BuildFailure::Config(e)) if e == "bad"));
    assert!(matches!(startup_key(Ok(Some(String::new()))), Err(BuildFailure::NoProvider)));
}

#[test]
fn skills_are_looked_for_in_the_usual_places() {
    let usual = vec![".recursive/skills".to_string(), ".other/skills".to_string()];
    assert_eq!(
        skill_search_paths(None, &usual, "/w", Some("/home/u")),
        vec![
            "/w/.recursive/skills",
            "/w/.other/skills",
            "/home/u/.recursive/skills",
            "/home/u/.other/skills"
        ]
    );
    assert_eq!(
        skill_search_paths(None, &usual, "/w", None),
        vec!["/w/.recursive/skills", "/w/.other/skills"]
    );
    assert_eq!(
        skill_search_paths(Some(vec!["/only".into()]), &usual, "/w", None),
        vec!["/only"]
    );
}

use llmconduit::config::{
    OrderedModelProfiles, PersistedConfig, PersistedModelProfile, PersistedUpstream,
    ResidualImagePolicy,
};
use llmconduit::json::JsonMap;
use llmconduit::wizard::{
    build_configured_persisted_config, configure_collapse_warning, encoded_chat_kwargs,
    existing_api_key, existing_chat_kwargs_text, existing_default, existing_default_model,
    existing_request_log_path, existing_url, parsed_chat_kwargs, read_chat_kwargs,
    ConfigureFlowInputs,
};
use serde_json::Value;

fn base_inputs() -> ConfigureFlowInputs {
    ConfigureFlowInputs {
        bind_addr: "127.0.0.1:4000".to_string(),
        upstream_base_url: "http://127.0.0.1:8000/v1".to_string(),
        upstream_api_key: Some("secret".to_string()),
        upstream_model: String::new(),
        upstream_request_log_path: String::new(),
        upstream_chat_kwargs: JsonMap::new(),
        brave_base_url: "https://api.search.brave.com/res/v1".to_string(),
        brave_api_key: String::new(),
        brave_max_results: 5,
        request_timeout_secs: 60,
    }
}

fn upstream(name: &str, url: &str) -> PersistedUpstream {
    PersistedUpstream {
        name: name.to_string(),
        url: url.to_string(),
        api_key: None,
        chat_kwargs: JsonMap::new(),
        request_log_path: None,
        upstream_model: None,
        fallback_upstreams: None,
    }
}

fn kwargs(key: &str, value: Value) -> JsonMap {
    let mut object = JsonMap::new();
    object.insert(key.to_string(), value);
    object
}

/// A blank "default model" prompt must keep passing the request model
/// through, since that's the only way an unset upstream model still works.
#[test]
fn wizard_output_without_default_model_passes_request_model_through() {
    let persisted = build_configured_persisted_config(&PersistedConfig::default(), base_inputs());

    let route = persisted.catch_all_route("anything").expect("route resolves");
    assert_eq!(route.profile.upstream, "default");
    assert_eq!(route.served_model, "anything");
}

/// An entered default model becomes the profile's `upstream_model`, so
/// every request routes to it regardless of the request's own model field.
#[test]
fn wizard_output_with_default_model_serves_entered_model() {
    let mut inputs = base_inputs();
    inputs.upstream_model = "my-model".to_string();
    let persisted = build_configured_persisted_config(&PersistedConfig::default(), inputs);

    let route = persisted.catch_all_route("anything").expect("route resolves");
    assert_eq!(route.profile.upstream, "default");
    assert_eq!(route.served_model, "my-model");
}

#[test]
fn collapse_warning_is_none_for_single_upstream_and_profile() {
    let existing = PersistedConfig::default();

    assert_eq!(configure_collapse_warning(&existing), None);
}

#[test]
fn collapse_warning_names_extra_upstream() {
    let mut existing = PersistedConfig::default();
    existing.upstreams.push(PersistedUpstream {
        name: "secondary".to_string(),
        url: "http://127.0.0.1:9000/v1".to_string(),
        api_key: None,
        chat_kwargs: JsonMap::new(),
        request_log_path: None,
        upstream_model: None,
        fallback_upstreams: None,
    });

    let warning = configure_collapse_warning(&existing).expect("warns about extra upstream");
    assert!(
        warning.contains("secondary"),
        "expected warning to name the extra upstream, got: {warning}"
    );
}

#[test]
fn collapse_warning_names_extra_profile_keys() {
    let mut existing = PersistedConfig::default();
    existing.model_profiles.0.push((
        "coder".to_string(),
        PersistedModelProfile {
            upstream: Some("default".to_string()),
            ..PersistedModelProfile::default()
        },
    ));

    let warning = configure_collapse_warning(&existing).expect("warns about extra profile");
    assert!(
        warning.contains("coder"),
        "expected warning to name the extra profile key, got: {warning}"
    );
}

#[test]
fn collapse_warning_lists_upstreams_and_profiles() {
    let mut existing = PersistedConfig::default();
    existing.upstreams.push(upstream("secondary", "http://127.0.0.1:9000/v1"));
    assert_eq!(
        configure_collapse_warning(&existing).unwrap(),
        "The existing config has 2 upstreams (default, secondary) that will be collapsed into a \
         single `default` upstream and a `\"*\"` profile if you continue."
    );
    existing.model_profiles.0.push(("coder".to_string(), PersistedModelProfile::default()));
    existing.model_profiles.0.push(("writer".to_string(), PersistedModelProfile::default()));
    assert_eq!(
        configure_collapse_warning(&existing).unwrap(),
        "The existing config has 2 upstreams (default, secondary) and 3 profiles (*, coder, \
         writer) that will be collapsed into a single `default` upstream and a `\"*\"` profile if \
         you continue."
    );
    existing.upstreams.clear();
    assert_eq!(
        configure_collapse_warning(&existing).unwrap(),
        "The existing config has 3 profiles (*, coder, writer) that will be collapsed into a \
         single `default` upstream and a `\"*\"` profile if you continue."
    );
}

#[test]
fn collapse_warning_counts_in_decimal() {
    let mut existing = PersistedConfig::default();
    existing.upstreams.clear();
    for i in 0..1203 {
        existing.upstreams.push(upstream(&format!("u{i}"), "http://localhost"));
    }
    let warning = configure_collapse_warning(&existing).unwrap();
    assert!(warning.starts_with("The existing config has 1203 upstreams (u0, u1, "));
}

#[test]
fn collapse_warning_is_none_for_empty_config() {
    let mut existing = PersistedConfig::default();
    existing.upstreams.clear();
    existing.model_profiles.0.clear();
    assert_eq!(configure_collapse_warning(&existing), None);
}

#[test]
fn wizard_output_has_one_upstream_and_one_profile() {
    let mut existing = PersistedConfig::default();
    existing.upstreams.push(upstream("secondary", "http://127.0.0.1:9000/v1"));
    existing.model_profiles.0.push(("coder".to_string(), PersistedModelProfile::default()));

    let mut inputs = base_inputs();
    inputs.upstream_chat_kwargs = kwargs("top_k", Value::from(40));
    let persisted = build_configured_persisted_config(&existing, inputs);
    assert_eq!(persisted.upstreams.len(), 1);
    assert_eq!(persisted.upstreams[0].name, "default");
    assert_eq!(persisted.upstreams[0].url, "http://127.0.0.1:8000/v1");
    assert_eq!(persisted.upstreams[0].api_key.as_deref(), Some("secret"));
    assert_eq!(persisted.upstreams[0].chat_kwargs, kwargs("top_k", Value::from(40)));
    assert_eq!(persisted.upstreams[0].request_log_path, None);
    assert_eq!(persisted.upstreams[0].upstream_model, None);
    assert!(persisted.upstreams[0].fallback_upstreams.is_none());
    assert_eq!(persisted.model_profiles.0.len(), 1);
    assert_eq!(persisted.model_profiles.0[0].0, "*");
    assert_eq!(persisted.model_profiles.0[0].1.upstream.as_deref(), Some("default"));
    assert_eq!(persisted.model_profiles.0[0].1.upstream_model, None);
    assert!(persisted.model_profiles.0[0].1.extends.is_empty());
    assert_eq!(configure_collapse_warning(&persisted), None);
}

#[test]
fn wizard_carries_unprompted_settings_through() {
    let mut existing = PersistedConfig::default();
    existing.system_prompt_prefix = Some("Be brief.".to_string());
    existing.turn_capture_dir = Some("/tmp/turns".to_string());
    existing.upstream_chat_kwargs = kwargs("stream_reasoning", Value::Bool(true));
    existing.upstream_failure_cooldown_secs = Some(7);
    let template = PersistedModelProfile {
        extends: vec!["base".to_string(), "other".to_string()],
        roles: Some(kwargs("user", Value::Object(JsonMap::new()))),
        extra: kwargs("separate_reasoning", Value::Bool(true)),
        ..PersistedModelProfile::default()
    };
    existing.model_profile_templates =
        OrderedModelProfiles(vec![("thinking".to_string(), template)]);
    existing.template_family = Some("glm".to_string());
    existing.connect_timeout_secs = Some(3);
    existing.max_web_search_rounds = 9;
    existing.flatten_content = Some(true);
    existing.max_replay_entries = Some(11);
    existing.debug_log_max_age_hours = Some(48);
    existing.min_completion_tokens = Some(16);
    existing.max_sse_frame_bytes = Some(1024);
    existing.max_request_body_bytes = Some(2048);
    existing.image_cache_max_size = Some(4);
    existing.image_cache_ttl_secs = Some(5);
    existing.price_table = kwargs("GLM-5.2", Value::from(2));

    let persisted = build_configured_persisted_config(&existing, base_inputs());
    assert_eq!(persisted.system_prompt_prefix.as_deref(), Some("Be brief."));
    assert_eq!(persisted.turn_capture_dir.as_deref(), Some("/tmp/turns"));
    assert_eq!(persisted.upstream_chat_kwargs, kwargs("stream_reasoning", Value::Bool(true)));
    assert_eq!(persisted.upstream_failure_cooldown_secs, Some(7));
    let (key, template) = &persisted.model_profile_templates.0[0];
    assert_eq!(key, "thinking");
    assert_eq!(template.extends, ["base", "other"]);
    assert_eq!(template.roles, Some(kwargs("user", Value::Object(JsonMap::new()))));
    assert_eq!(template.extra, kwargs("separate_reasoning", Value::Bool(true)));
    assert_eq!(template.capabilities, None);
    assert_eq!(persisted.template_family.as_deref(), Some("glm"));
    assert_eq!(persisted.connect_timeout_secs, Some(3));
    assert_eq!(persisted.max_web_search_rounds, 9);
    assert_eq!(persisted.flatten_content, Some(true));
    assert_eq!(persisted.max_replay_entries, Some(11));
    assert_eq!(persisted.debug_log_max_age_hours, Some(48));
    assert_eq!(persisted.min_completion_tokens, Some(16));
    assert_eq!(persisted.max_sse_frame_bytes, Some(1024));
    assert_eq!(persisted.max_request_body_bytes, Some(2048));
    assert_eq!(persisted.image_cache_max_size, Some(4));
    assert_eq!(persisted.image_cache_ttl_secs, Some(5));
    assert_eq!(persisted.price_table, kwargs("GLM-5.2", Value::from(2)));
}

#[test]
fn wizard_clears_superseded_settings() {
    let mut existing = PersistedConfig::default();
    existing.upstream_base_url = Some("http://old".to_string());
    existing.upstream_api_key = Some("old".to_string());
    existing.upstream_model = Some("old".to_string());
    existing.upstream_request_log_path = Some("/old".to_string());
    existing.fallback_upstreams = Some(vec![kwargs("name", Value::from("backup"))]);
    existing.model_routes = Some(kwargs("a", Value::from("b")));
    existing.image_agent_enabled = Some(true);
    existing.vision_url = Some("http://vision".to_string());
    existing.vision_model = Some("vl".to_string());
    existing.unsupported_image_policy = Some(ResidualImagePolicy::Reject);
    existing.brave_api_key = Some("old".to_string());

    let mut inputs = base_inputs();
    inputs.bind_addr = " 0.0.0.0:1 ".to_string();
    inputs.brave_base_url = "http://brave".to_string();
    inputs.brave_max_results = 8;
    inputs.request_timeout_secs = 90;
    let persisted = build_configured_persisted_config(&existing, inputs);
    assert_eq!(persisted.bind_addr, " 0.0.0.0:1 ");
    assert_eq!(persisted.brave_base_url, "http://brave");
    assert_eq!(persisted.brave_max_results, 8);
    assert_eq!(persisted.request_timeout_secs, 90);
    assert_eq!(persisted.upstream_base_url, None);
    assert_eq!(persisted.upstream_api_key, None);
    assert_eq!(persisted.upstream_model, None);
    assert_eq!(persisted.upstream_request_log_path, None);
    assert!(persisted.fallback_upstreams.is_none());
    assert!(persisted.model_routes.is_none());
    assert_eq!(persisted.image_agent_enabled, None);
    assert_eq!(persisted.vision_url, None);
    assert_eq!(persisted.vision_model, None);
    assert_eq!(persisted.unsupported_image_policy, None);
    assert_eq!(persisted.brave_api_key, None);
}

#[test]
fn wizard_trims_model_and_log_path_but_not_keys() {
    let mut inputs = base_inputs();
    inputs.upstream_model = " \u{2003}my model\t".to_string();
    inputs.upstream_request_log_path = "\n/tmp/log.jsonl\u{3000}".to_string();
    inputs.brave_api_key = " key ".to_string();
    let persisted = build_configured_persisted_config(&PersistedConfig::default(), inputs);
    assert_eq!(persisted.model_profiles.0[0].1.upstream_model.as_deref(), Some("my model"));
    assert_eq!(persisted.upstreams[0].request_log_path.as_deref(), Some("/tmp/log.jsonl"));
    assert_eq!(persisted.brave_api_key.as_deref(), Some(" key "));
}

#[test]
fn wizard_drops_blank_model_log_path_and_key() {
    let mut inputs = base_inputs();
    inputs.upstream_model = " \t\r\n\u{85}\u{a0}".to_string();
    inputs.upstream_request_log_path = "\u{1680}\u{2028}\u{2029}\u{202f}\u{205f}".to_string();
    inputs.brave_api_key = "   ".to_string();
    let persisted = build_configured_persisted_config(&PersistedConfig::default(), inputs);
    assert_eq!(persisted.model_profiles.0[0].1.upstream_model, None);
    assert_eq!(persisted.upstreams[0].request_log_path, None);
    assert_eq!(persisted.brave_api_key, None);
}

#[test]
fn zero_width_space_is_not_blank() {
    let mut inputs = base_inputs();
    inputs.upstream_model = "\u{200b}".to_string();
    let persisted = build_configured_persisted_config(&PersistedConfig::default(), inputs);
    assert_eq!(persisted.model_profiles.0[0].1.upstream_model.as_deref(), Some("\u{200b}"));
}

#[test]
fn catch_all_route_needs_profile_and_upstream() {
    let mut config = PersistedConfig::default();
    assert_eq!(config.catch_all_route("m").unwrap().served_model, "m");
    config.upstreams[0].name = "other".to_string();
    assert!(config.catch_all_route("m").is_none());
    config.model_profiles.0[0].1.upstream = Some("other".to_string());
    assert_eq!(config.catch_all_route("m").unwrap().profile.upstream, "other");
    config.model_profiles.0[0].1.upstream = None;
    assert!(config.catch_all_route("m").is_none());
    config.model_profiles.0.clear();
    assert!(config.catch_all_route("m").is_none());
}

#[test]
fn proposals_come_from_the_default_upstream() {
    let mut existing = PersistedConfig::default();
    existing.upstreams.insert(0, upstream("first", "http://first"));
    existing.upstreams[1].api_key = Some("k".to_string());
    existing.upstreams[1].request_log_path = Some("/log".to_string());
    existing.upstreams[1].chat_kwargs = kwargs("b", Value::Null);
    existing.upstream_request_log_path = Some("/whole".to_string());
    existing.model_profiles.0[0].1.upstream_model = Some("served".to_string());
    assert_eq!(existing_default(&existing).unwrap().name, "default");
    assert_eq!(existing_url(&existing), "http://127.0.0.1:8000/v1");
    assert_eq!(existing_api_key(&existing).as_deref(), Some("k"));
    assert_eq!(existing_request_log_path(&existing), "/log");
    assert_eq!(existing_default_model(&existing), "served");
    assert_eq!(existing_chat_kwargs_text(&existing).unwrap(), "{\"b\":null}");
}

#[test]
fn proposals_fall_back_to_the_first_upstream() {
    let mut existing = PersistedConfig::default();
    existing.upstreams[0].name = "local".to_string();
    existing.upstreams[0].url = "http://local".to_string();
    existing.upstreams.push(upstream("second", "http://second"));
    existing.upstream_request_log_path = Some("/whole".to_string());
    assert_eq!(existing_default(&existing).unwrap().name, "local");
    assert_eq!(existing_url(&existing), "http://local");
    assert_eq!(existing_api_key(&existing), None);
    assert_eq!(existing_request_log_path(&existing), "/whole");
    assert_eq!(existing_chat_kwargs_text(&existing).unwrap(), "");
}

#[test]
fn proposals_without_upstreams_and_profiles() {
    let mut existing = PersistedConfig::default();
    existing.upstreams.clear();
    existing.model_profiles.0.clear();
    assert!(existing_default(&existing).is_none());
    assert_eq!(existing_url(&existing), "http://127.0.0.1:8000/v1");
    assert_eq!(existing_api_key(&existing), None);
    assert_eq!(existing_request_log_path(&existing), "");
    assert_eq!(existing_default_model(&existing), "");
    assert_eq!(existing_chat_kwargs_text(&existing).unwrap(), "");
}

#[test]
fn chat_kwargs_text_is_read_back() {
    let mut object = kwargs("top_k", Value::from(-40));
    object.insert("quote \"\n".to_string(), Value::from("x\u{1}y"));
    object.insert("list".to_string(), Value::Array(vec![Value::Bool(true), Value::Null]));
    let mut existing = PersistedConfig::default();
    existing.upstreams[0].chat_kwargs = object.clone();
    let text = existing_chat_kwargs_text(&existing).unwrap();
    assert_eq!(
        text,
        "{\"list\":[true,null],\"quote \\\"\\n\":\"x\\u0001y\",\"top_k\":-40}"
    );
    assert_eq!(read_chat_kwargs(&text), Ok(object));
}

#[test]
fn chat_kwargs_are_read() {
    assert_eq!(read_chat_kwargs(""), Ok(JsonMap::new()));
    assert_eq!(read_chat_kwargs(" \t "), Ok(JsonMap::new()));
    assert_eq!(read_chat_kwargs("{}"), Ok(JsonMap::new()));
    assert_eq!(read_chat_kwargs(" {\"a\": 1} "), Ok(kwargs("a", Value::from(1))));
    assert_eq!(
        read_chat_kwargs("[]").unwrap_err(),
        "invalid upstream chat kwargs JSON: invalid type: sequence, expected a map at line 1 \
         column 0"
    );
    assert_eq!(
        read_chat_kwargs("{").unwrap_err(),
        "invalid upstream chat kwargs JSON: EOF while parsing an object at line 1 column 1"
    );
}

#[test]
fn chat_kwargs_failures_are_named() {
    assert_eq!(encoded_chat_kwargs(Ok("{}".to_string())), Ok("{}".to_string()));
    assert_eq!(
        encoded_chat_kwargs(Err("no".to_string())),
        Err("failed to encode upstream chat kwargs: no".to_string())
    );
    assert_eq!(parsed_chat_kwargs(Ok(kwargs("a", Value::Null))), Ok(kwargs("a", Value::Null)));
    assert_eq!(
        parsed_chat_kwargs(Err("no".to_string())),
        Err("invalid upstream chat kwargs JSON: no".to_string())
    );
}

#[test]
fn last_answers_win() {
    let mut first = base_inputs();
    first.upstream_model = "one".to_string();
    first.brave_api_key = "key".to_string();
    let once = build_configured_persisted_config(&PersistedConfig::default(), first);
    let twice = build_configured_persisted_config(&once, base_inputs());
    let direct = build_configured_persisted_config(&PersistedConfig::default(), base_inputs());
    assert_eq!(format!("{twice:?}"), format!("{direct:?}"));
}

#[test]
fn whitespace_is_the_unicode_property() {
    let white = [
        '\u{9}', '\u{a}', '\u{b}', '\u{c}', '\u{d}', ' ', '\u{85}', '\u{a0}', '\u{1680}',
        '\u{2000}', '\u{2001}', '\u{2002}', '\u{2003}', '\u{2004}', '\u{2005}', '\u{2006}',
        '\u{2007}', '\u{2008}', '\u{2009}', '\u{200a}', '\u{2028}', '\u{2029}', '\u{202f}',
        '\u{205f}', '\u{3000}',
    ];
    for c in '\0'..=char::MAX {
        assert_eq!(read_chat_kwargs(&c.to_string()).is_ok(), white.contains(&c), "{c:?}");
    }
}

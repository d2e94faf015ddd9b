use llmconduit::config::{PersistedConfig, PersistedUpstream};
use llmconduit::flow::{finish, Answer, ConfigureFlow, FlowStep, Prompt, Stage};
use llmconduit::json::JsonMap;
use serde_json::Value;

fn start(existing: PersistedConfig) -> FlowStep {
    ConfigureFlow::start(Ok(existing), "/tmp/config.yaml".to_string())
}

fn two_upstreams() -> PersistedConfig {
    let mut existing = PersistedConfig::default();
    existing.upstreams.push(PersistedUpstream {
        name: "secondary".to_string(),
        url: "http://127.0.0.1:9000/v1".to_string(),
        api_key: None,
        chat_kwargs: JsonMap::new(),
        request_log_path: None,
        upstream_model: None,
        fallback_upstreams: None,
    });
    existing
}

fn flow_of(step: FlowStep) -> ConfigureFlow {
    match step {
        FlowStep::Ask { flow, .. } => flow,
        other => panic!("expected a question, got {other:?}"),
    }
}

fn failure_of(step: FlowStep) -> String {
    match step {
        FlowStep::Fail(message) => message,
        other => panic!("expected a failure, got {other:?}"),
    }
}

/// The answer that accepts a proposal.
fn accept(prompt: &Prompt) -> Answer {
    match prompt {
        Prompt::Confirm { .. } => Answer::Confirmed(true),
        Prompt::Input { default, .. } => Answer::Text(default.clone()),
        Prompt::Password { .. } => Answer::Text(String::new()),
        Prompt::Count { default, .. } => Answer::Count(*default),
        Prompt::Seconds { default, .. } => Answer::Seconds(*default),
    }
}

/// Accepts every proposal, but for the answers given by stage; returns the stages and
/// how the dialogue ended.
fn run(
    existing: PersistedConfig,
    answers: Vec<(Stage, Answer)>,
) -> (Vec<Stage>, Result<PersistedConfig, String>) {
    let mut answers = answers;
    let mut stages = Vec::new();
    let mut step = start(existing);
    loop {
        match step {
            FlowStep::Ask { flow, prompt, .. } => {
                stages.push(flow.stage);
                let answer = match answers.iter().position(|(stage, _)| *stage == flow.stage) {
                    Some(i) => answers.remove(i).1,
                    None => accept(&prompt),
                };
                assert!(flow.accepts(&answer));
                step = flow.answer(answer);
            }
            FlowStep::Write(config) => return (stages, Ok(config)),
            FlowStep::Fail(message) => return (stages, Err(message)),
        }
    }
}

#[test]
fn dialogue_opens_with_the_bind_address() {
    match start(PersistedConfig::default()) {
        FlowStep::Ask { flow, notices, prompt } => {
            assert_eq!(flow.stage, Stage::BindAddress);
            assert_eq!(notices, ["Configuring llmconduit", "Config file: /tmp/config.yaml"]);
            match prompt {
                Prompt::Input { message, default, allow_empty } => {
                    assert_eq!(message, "Bind address");
                    assert_eq!(default, "127.0.0.1:4000");
                    assert!(!allow_empty);
                }
                other => panic!("unexpected prompt {other:?}"),
            }
        }
        other => panic!("unexpected step {other:?}"),
    }
}

#[test]
fn dialogue_warns_before_it_collapses() {
    match start(two_upstreams()) {
        FlowStep::Ask { flow, notices, prompt } => {
            assert_eq!(flow.stage, Stage::ConfirmCollapse);
            assert_eq!(notices.len(), 3);
            assert!(notices[2].contains("2 upstreams (default, secondary)"));
            match prompt {
                Prompt::Confirm { message, default } => {
                    assert_eq!(message, "Continue anyway?");
                    assert!(!default);
                }
                other => panic!("unexpected prompt {other:?}"),
            }
            assert_eq!(failure_of(flow.answer(Answer::Confirmed(false))), "configuration cancelled");
        }
        other => panic!("unexpected step {other:?}"),
    }
    let flow = flow_of(flow_of(start(two_upstreams())).answer(Answer::Confirmed(true)));
    assert_eq!(flow.stage, Stage::BindAddress);
}

#[test]
fn accepting_every_proposal_asks_each_question_once() {
    let (stages, ended) = run(PersistedConfig::default(), Vec::new());
    assert_eq!(
        stages,
        [
            Stage::BindAddress,
            Stage::UpstreamUrl,
            Stage::ApiKey,
            Stage::UpstreamModel,
            Stage::RequestLogPath,
            Stage::ChatKwargs,
            Stage::BraveUrl,
            Stage::BraveApiKey,
            Stage::BraveMaxResults,
            Stage::RequestTimeout,
            Stage::ConfirmWrite,
        ]
    );
    assert_eq!(
        format!("{:?}", ended.unwrap()),
        format!("{:?}", PersistedConfig::default())
    );
}

#[test]
fn answers_end_up_in_the_config() {
    let (_, ended) = run(
        PersistedConfig::default(),
        vec![
            (Stage::BindAddress, Answer::Text("0.0.0.0:80".to_string())),
            (Stage::UpstreamUrl, Answer::Text("http://up".to_string())),
            (Stage::ApiKey, Answer::Text(" key ".to_string())),
            (Stage::UpstreamModel, Answer::Text(" model ".to_string())),
            (Stage::RequestLogPath, Answer::Text(" /log ".to_string())),
            (Stage::ChatKwargs, Answer::Text("{\"top_k\": 40}".to_string())),
            (Stage::BraveUrl, Answer::Text("http://brave".to_string())),
            (Stage::BraveApiKey, Answer::Text("brave".to_string())),
            (Stage::BraveMaxResults, Answer::Count(7)),
            (Stage::RequestTimeout, Answer::Seconds(90)),
        ],
    );
    let config = ended.unwrap();
    assert_eq!(config.bind_addr, "0.0.0.0:80");
    assert_eq!(config.upstreams[0].url, "http://up");
    assert_eq!(config.upstreams[0].api_key.as_deref(), Some(" key "));
    assert_eq!(config.model_profiles.0[0].1.upstream_model.as_deref(), Some("model"));
    assert_eq!(config.upstreams[0].request_log_path.as_deref(), Some("/log"));
    assert_eq!(config.upstreams[0].chat_kwargs.get("top_k"), Some(&Value::from(40)));
    assert_eq!(config.brave_base_url, "http://brave");
    assert_eq!(config.brave_api_key.as_deref(), Some("brave"));
    assert_eq!(config.brave_max_results, 7);
    assert_eq!(config.request_timeout_secs, 90);
}

#[test]
fn accepting_proposals_over_wizard_output_changes_nothing() {
    let (_, first) = run(
        two_upstreams(),
        vec![
            (Stage::ApiKey, Answer::Text("key".to_string())),
            (Stage::UpstreamModel, Answer::Text(" model ".to_string())),
            (Stage::RequestLogPath, Answer::Text("/log ".to_string())),
            (Stage::ChatKwargs, Answer::Text("{\"a\": {\"b\": [1, \"x\"]}}".to_string())),
            (Stage::BraveApiKey, Answer::Text("brave".to_string())),
        ],
    );
    let config = first.unwrap();
    let before = format!("{config:?}");
    let (stages, again) =
        run(config, vec![(Stage::BraveApiKey, Answer::Text("brave".to_string()))]);
    assert!(stages.contains(&Stage::KeepApiKey));
    assert!(!stages.contains(&Stage::ApiKey));
    assert!(!stages.contains(&Stage::ConfirmCollapse));
    assert_eq!(format!("{:?}", again.unwrap()), before);
}

#[test]
fn existing_api_key_can_be_replaced_or_dropped() {
    let with_key = || {
        let mut existing = PersistedConfig::default();
        existing.upstreams[0].api_key = Some("old".to_string());
        existing
    };
    let (_, kept) = run(with_key(), Vec::new());
    assert_eq!(kept.unwrap().upstreams[0].api_key.as_deref(), Some("old"));
    let (stages, replaced) = run(
        with_key(),
        vec![
            (Stage::KeepApiKey, Answer::Confirmed(false)),
            (Stage::ApiKey, Answer::Text("new".to_string())),
        ],
    );
    assert!(stages.contains(&Stage::ApiKey));
    assert_eq!(replaced.unwrap().upstreams[0].api_key.as_deref(), Some("new"));
    let (_, dropped) = run(
        with_key(),
        vec![
            (Stage::KeepApiKey, Answer::Confirmed(false)),
            (Stage::ApiKey, Answer::Text(" ".to_string())),
        ],
    );
    assert_eq!(dropped.unwrap().upstreams[0].api_key, None);
}

#[test]
fn invalid_chat_kwargs_end_the_dialogue_before_the_write_is_offered() {
    let (stages, ended) = run(
        PersistedConfig::default(),
        vec![(Stage::ChatKwargs, Answer::Text("nonsense".to_string()))],
    );
    assert_eq!(stages.last(), Some(&Stage::RequestTimeout));
    assert_eq!(
        ended.unwrap_err(),
        "invalid upstream chat kwargs JSON: expected ident at line 1 column 2"
    );
}

#[test]
fn refused_write_cancels() {
    let (_, ended) = run(
        PersistedConfig::default(),
        vec![(Stage::ConfirmWrite, Answer::Confirmed(false))],
    );
    assert_eq!(ended.unwrap_err(), "configuration cancelled");
}

#[test]
fn write_is_offered_with_the_path() {
    let mut step = start(PersistedConfig::default());
    loop {
        let flow = match step {
            FlowStep::Ask { flow, prompt, .. } => {
                if flow.stage == Stage::ConfirmWrite {
                    match prompt {
                        Prompt::Confirm { message, default } => {
                            assert_eq!(message, "Write configuration to /tmp/config.yaml?");
                            assert!(default);
                        }
                        other => panic!("unexpected prompt {other:?}"),
                    }
                    return;
                }
                flow
            }
            other => panic!("unexpected step {other:?}"),
        };
        let prompt = flow.prompt().unwrap();
        step = flow.answer(accept(&prompt));
    }
}

#[test]
fn failed_questions_name_what_failed() {
    let heads = [
        (Stage::ConfirmCollapse, "failed to confirm config collapse: "),
        (Stage::BindAddress, "failed to read bind address: "),
        (Stage::UpstreamUrl, "failed to read upstream URL: "),
        (Stage::KeepApiKey, "failed to confirm upstream API key: "),
        (Stage::ApiKey, "failed to read upstream API key: "),
        (Stage::UpstreamModel, "failed to read upstream model override: "),
        (Stage::RequestLogPath, "failed to read upstream request log path: "),
        (Stage::ChatKwargs, "failed to read upstream chat kwargs: "),
        (Stage::BraveUrl, "failed to read Brave URL: "),
        (Stage::BraveApiKey, "failed to read Brave API key: "),
        (Stage::BraveMaxResults, "failed to read Brave max results: "),
        (Stage::RequestTimeout, "failed to read timeout: "),
        (Stage::ConfirmWrite, "failed to confirm config write: "),
    ];
    for (stage, head) in heads {
        let mut existing = two_upstreams();
        existing.upstreams[0].api_key = Some("old".to_string());
        let (stages, ended) = run(
            existing,
            vec![
                (stage, Answer::Failed("not a terminal".to_string())),
                (Stage::KeepApiKey, Answer::Confirmed(false)),
            ],
        );
        assert_eq!(stages.last(), Some(&stage));
        assert_eq!(ended.unwrap_err(), format!("{head}not a terminal"));
    }
}

#[test]
fn answers_of_the_wrong_kind_are_not_accepted() {
    let flow = flow_of(start(PersistedConfig::default()));
    assert!(flow.accepts(&Answer::Text(String::new())));
    assert!(flow.accepts(&Answer::Failed(String::new())));
    assert!(!flow.accepts(&Answer::Confirmed(true)));
    assert!(!flow.accepts(&Answer::Count(1)));
    assert!(!flow.accepts(&Answer::Seconds(1)));
}

#[test]
fn finish_reports_what_came_of_the_write() {
    let config = PersistedConfig::default();
    assert_eq!(finish(config, Ok(())).unwrap().bind_addr, "127.0.0.1:4000");
    let failed = finish(PersistedConfig::default(), Err("disk full".to_string()));
    assert_eq!(failed.unwrap_err(), "disk full");
}

fn text_prompt(message: &str, default: &str, allow_empty: bool) -> String {
    format!(
        "{:?}",
        Prompt::Input { message: message.to_string(), default: default.to_string(), allow_empty }
    )
}

#[test]
fn every_question_has_its_wording_and_proposal() {
    let mut existing = two_upstreams();
    existing.upstreams[0].api_key = Some("old".to_string());
    existing.upstreams[0].request_log_path = Some("/log".to_string());
    existing.upstreams[0].chat_kwargs.insert("top_k".to_string(), Value::from(40));
    existing.model_profiles.0[0].1.upstream_model = Some("model".to_string());
    existing.brave_max_results = 7;
    existing.request_timeout_secs = 90;
    let password = |message: &str| {
        format!("{:?}", Prompt::Password { message: message.to_string() })
    };
    let confirm = |message: &str, default: bool| {
        format!("{:?}", Prompt::Confirm { message: message.to_string(), default })
    };
    let expected = [
        confirm("Continue anyway?", false),
        text_prompt("Bind address", "127.0.0.1:4000", false),
        text_prompt("Upstream chat-completions base URL", "http://127.0.0.1:8000/v1", false),
        confirm("Keep existing upstream API key?", true),
        password("Upstream API key (leave blank for local/no auth)"),
        text_prompt(
            "Upstream model override (leave blank to pass through request model)",
            "model",
            true,
        ),
        text_prompt("Upstream request JSONL log path (leave blank to disable)", "/log", true),
        text_prompt(
            "Extra upstream chat kwargs as JSON object (leave blank for none)",
            "{\"top_k\":40}",
            true,
        ),
        text_prompt("Brave Search base URL", "https://api.search.brave.com/res/v1", false),
        password("Brave Search API key (leave blank to disable provider-side web_search)"),
        format!("{:?}", Prompt::Count { message: "Brave max results".to_string(), default: 7 }),
        format!(
            "{:?}",
            Prompt::Seconds { message: "Request timeout (seconds)".to_string(), default: 90 }
        ),
        confirm("Write configuration to /tmp/config.yaml?", true),
    ];
    let mut asked = Vec::new();
    let mut step = start(existing);
    while let FlowStep::Ask { flow, notices, prompt } = step {
        assert_eq!(notices.is_empty(), !asked.is_empty());
        asked.push(format!("{prompt:?}"));
        let answer = match flow.stage {
            Stage::KeepApiKey => Answer::Confirmed(false),
            _ => accept(&prompt),
        };
        step = flow.answer(answer);
    }
    assert!(matches!(step, FlowStep::Write(_)));
    assert_eq!(asked, expected);
}

#[test]
fn failed_load_ends_the_dialogue() {
    let step = ConfigureFlow::start(Err("no such file".to_string()), "/tmp/c".to_string());
    assert_eq!(failure_of(step), "no such file");
}

fn rerun_keeps(kwargs_text: &str) -> bool {
    let (_, first) = run(
        PersistedConfig::default(),
        vec![
            (Stage::ChatKwargs, Answer::Text(kwargs_text.to_string())),
            (Stage::BraveApiKey, Answer::Text("  ".to_string())),
        ],
    );
    let config = first.unwrap();
    let before = format!("{config:?}");
    let (stages, again) = run(config, Vec::new());
    assert_eq!(stages[0], Stage::BindAddress);
    format!("{:?}", again.unwrap()) == before
}

#[test]
fn rerun_keeps_float_free_chat_kwargs() {
    assert!(rerun_keeps("{\"model\":\"gpt-4.1\"}"));
    assert!(rerun_keeps("{\"a.b\":\"1e5 \\\"[[{{\\\\\",\"n\":[18446744073709551615,-9223372036854775808]}"));
    let deep = format!("{{\"d\":{}{}}}", "[".repeat(126), "]".repeat(126));
    assert!(rerun_keeps(&deep));
}

#[test]
fn deeper_chat_kwargs_are_not_read() {
    let mut value = Value::Null;
    for _ in 0..127 {
        value = Value::Array(vec![value]);
    }
    let mut existing = PersistedConfig::default();
    existing.upstreams[0].chat_kwargs.insert("d".to_string(), value);
    let (stages, ended) = run(existing, Vec::new());
    assert_eq!(stages.last(), Some(&Stage::RequestTimeout));
    assert!(ended.unwrap_err().contains("recursion limit exceeded"));
}

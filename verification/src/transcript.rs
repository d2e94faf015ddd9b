//! Whole runs of the wizard's dialogue, and what holds of them.

use vstd::prelude::*;

use crate::config::ConfigView;
use crate::flow::{AnswerView, FlowView, Stage, StepView};
use crate::wizard::InputsView;

verus! {

/// What comes of each question of a dialogue, should it be put: the answer, or the
/// reason why there is none.
pub struct Script {
    pub collapse: Result<bool, Seq<char>>,
    pub bind_addr: Result<Seq<char>, Seq<char>>,
    pub upstream_url: Result<Seq<char>, Seq<char>>,
    pub keep_api_key: Result<bool, Seq<char>>,
    pub api_key: Result<Seq<char>, Seq<char>>,
    pub upstream_model: Result<Seq<char>, Seq<char>>,
    pub request_log_path: Result<Seq<char>, Seq<char>>,
    pub chat_kwargs: Result<Seq<char>, Seq<char>>,
    pub brave_url: Result<Seq<char>, Seq<char>>,
    pub brave_api_key: Result<Seq<char>, Seq<char>>,
    pub brave_max_results: Result<usize, Seq<char>>,
    pub request_timeout: Result<u64, Seq<char>>,
    pub write: Result<bool, Seq<char>>,
}

/// A yes or no, or a failure, as an answer.
pub open spec fn confirmation(r: Result<bool, Seq<char>>) -> AnswerView {
    match r {
        Ok(yes) => AnswerView::Confirmed(yes),
        Err(message) => AnswerView::Failed(message),
    }
}

/// A text, or a failure, as an answer.
pub open spec fn entry(r: Result<Seq<char>, Seq<char>>) -> AnswerView {
    match r {
        Ok(text) => AnswerView::Text(text),
        Err(message) => AnswerView::Failed(message),
    }
}

/// What the script answers at a stage.
pub open spec fn scripted(script: Script, stage: Stage) -> AnswerView {
    match stage {
        Stage::ConfirmCollapse => confirmation(script.collapse),
        Stage::BindAddress => entry(script.bind_addr),
        Stage::UpstreamUrl => entry(script.upstream_url),
        Stage::KeepApiKey => confirmation(script.keep_api_key),
        Stage::ApiKey => entry(script.api_key),
        Stage::UpstreamModel => entry(script.upstream_model),
        Stage::RequestLogPath => entry(script.request_log_path),
        Stage::ChatKwargs => entry(script.chat_kwargs),
        Stage::BraveUrl => entry(script.brave_url),
        Stage::BraveApiKey => entry(script.brave_api_key),
        Stage::BraveMaxResults => match script.brave_max_results {
            Ok(n) => AnswerView::Count(n),
            Err(message) => AnswerView::Failed(message),
        },
        Stage::RequestTimeout => match script.request_timeout {
            Ok(secs) => AnswerView::Seconds(secs),
            Err(message) => AnswerView::Failed(message),
        },
        Stage::ConfirmWrite => confirmation(script.write),
    }
}

/// How many questions there can be from a stage on.
pub open spec fn questions_left(stage: Stage) -> nat {
    match stage {
        Stage::ConfirmCollapse => 13,
        Stage::BindAddress => 12,
        Stage::UpstreamUrl => 11,
        Stage::KeepApiKey => 10,
        Stage::ApiKey => 9,
        Stage::UpstreamModel => 8,
        Stage::RequestLogPath => 7,
        Stage::ChatKwargs => 6,
        Stage::BraveUrl => 5,
        Stage::BraveApiKey => 4,
        Stage::BraveMaxResults => 3,
        Stage::RequestTimeout => 2,
        Stage::ConfirmWrite => 1,
    }
}

/// How many questions there can be from a step on.
pub open spec fn questions_after(step: StepView) -> nat {
    match step {
        StepView::Ask { flow, .. } => questions_left(flow.stage),
        _ => 0,
    }
}

/// How a dialogue ends if every question is answered by the script: with a config to
/// write, or with a message.
pub open spec fn ending(step: StepView, script: Script) -> Result<ConfigView, Seq<char>>
    decreases questions_after(step),
{
    match step {
        StepView::Ask { flow, .. } => ending(
            crate::flow::next(flow, scripted(script, flow.stage)),
            script,
        ),
        StepView::Write(config) => Ok(config),
        StepView::Fail(message) => Err(message),
    }
}

/// Whether the wizard asks for a new API key: there is none to keep, or it is not
/// kept.
pub open spec fn asks_api_key(existing: ConfigView, script: Script) -> bool {
    crate::wizard::proposed_api_key(existing) is None || script.keep_api_key == Ok::<
        bool,
        Seq<char>,
    >(false)
}

/// The first thing that goes wrong, in the order of the questions.
pub open spec fn first_failure(existing: ConfigView, script: Script) -> Option<Seq<char>> {
    let warned = crate::wizard::collapse_warning(existing) is Some;
    let has_key = crate::wizard::proposed_api_key(existing) is Some;
    let proposal = crate::wizard::proposed_chat_kwargs_text(existing);
    let kwargs = crate::wizard::entered_chat_kwargs(script.chat_kwargs->Ok_0);
    if warned && script.collapse is Err {
        Some("failed to confirm config collapse: "@ + script.collapse->Err_0)
    } else if warned && !script.collapse->Ok_0 {
        Some("configuration cancelled"@)
    } else if script.bind_addr is Err {
        Some("failed to read bind address: "@ + script.bind_addr->Err_0)
    } else if script.upstream_url is Err {
        Some("failed to read upstream URL: "@ + script.upstream_url->Err_0)
    } else if has_key && script.keep_api_key is Err {
        Some("failed to confirm upstream API key: "@ + script.keep_api_key->Err_0)
    } else if asks_api_key(existing, script) && script.api_key is Err {
        Some("failed to read upstream API key: "@ + script.api_key->Err_0)
    } else if script.upstream_model is Err {
        Some("failed to read upstream model override: "@ + script.upstream_model->Err_0)
    } else if script.request_log_path is Err {
        Some("failed to read upstream request log path: "@ + script.request_log_path->Err_0)
    } else if proposal is Err {
        Some(proposal->Err_0)
    } else if script.chat_kwargs is Err {
        Some("failed to read upstream chat kwargs: "@ + script.chat_kwargs->Err_0)
    } else if script.brave_url is Err {
        Some("failed to read Brave URL: "@ + script.brave_url->Err_0)
    } else if script.brave_api_key is Err {
        Some("failed to read Brave API key: "@ + script.brave_api_key->Err_0)
    } else if script.brave_max_results is Err {
        Some("failed to read Brave max results: "@ + script.brave_max_results->Err_0)
    } else if script.request_timeout is Err {
        Some("failed to read timeout: "@ + script.request_timeout->Err_0)
    } else if kwargs is Err {
        Some(kwargs->Err_0)
    } else if script.write is Err {
        Some("failed to confirm config write: "@ + script.write->Err_0)
    } else if !script.write->Ok_0 {
        Some("configuration cancelled"@)
    } else {
        None
    }
}

/// The answers of a script in which nothing goes wrong.
pub open spec fn gathered(existing: ConfigView, script: Script) -> InputsView {
    InputsView {
        bind_addr: script.bind_addr->Ok_0,
        upstream_base_url: script.upstream_url->Ok_0,
        upstream_api_key: if asks_api_key(existing, script) {
            crate::wizard::entered_secret(script.api_key->Ok_0)
        } else {
            crate::wizard::proposed_api_key(existing)
        },
        upstream_model: script.upstream_model->Ok_0,
        upstream_request_log_path: script.request_log_path->Ok_0,
        upstream_chat_kwargs: crate::wizard::entered_chat_kwargs(script.chat_kwargs->Ok_0)->Ok_0,
        brave_base_url: script.brave_url->Ok_0,
        brave_api_key: script.brave_api_key->Ok_0,
        brave_max_results: script.brave_max_results->Ok_0,
        request_timeout_secs: script.request_timeout->Ok_0,
    }
}

/// Every answer moves the dialogue forward, so it asks thirteen questions at most.
pub proof fn law_dialogue_ends(flow: FlowView, answer: AnswerView)
    requires
        crate::flow::accepts(flow.stage, answer),
    ensures
        questions_after(crate::flow::next(flow, answer)) < questions_left(flow.stage),
        questions_left(flow.stage) <= 13,
{
}

/// The dialogue is a straight run through the questions: it ends with the first
/// thing that goes wrong, and if nothing does, with the config that the answers make.
pub proof fn law_dialogue_follows_script(existing: ConfigView, path: Seq<char>, script: Script)
    ensures
        ending(crate::flow::opening(existing, path), script) == (match first_failure(
            existing,
            script,
        ) {
            Some(message) => Err::<ConfigView, Seq<char>>(message),
            None => Ok::<ConfigView, Seq<char>>(
                crate::wizard::configured(existing, gathered(existing, script)),
            ),
        }),
{
    reveal_with_fuel(ending, 15);
}

/// A config is written only after the writing was confirmed.
pub proof fn law_writes_only_if_confirmed(flow: FlowView, answer: AnswerView)
    requires
        crate::flow::accepts(flow.stage, answer),
    ensures
        crate::flow::next(flow, answer) is Write <==> flow.stage is ConfirmWrite && answer
            == AnswerView::Confirmed(true),
{
}

/// A config that is about to lose an upstream or a profile is replaced only if that
/// was agreed to after a warning; a refusal cancels the dialogue.
pub proof fn law_no_silent_loss(existing: ConfigView, path: Seq<char>, script: Script)
    requires
        existing.upstreams.len() > 1 || existing.model_profiles.len() > 1,
    ensures
        ending(crate::flow::opening(existing, path), script) is Ok ==> script.collapse == Ok::<
            bool,
            Seq<char>,
        >(true),
        script.collapse == Ok::<bool, Seq<char>>(false) ==> ending(
            crate::flow::opening(existing, path),
            script,
        ) == Err::<ConfigView, Seq<char>>("configuration cancelled"@),
        crate::wizard::collapse_warning(existing) is Some,
        crate::flow::opening_notices(existing, path).last()
            == crate::wizard::collapse_warning(existing)->Some_0,
{
    law_dialogue_follows_script(existing, path, script);
}

/// Without consent to the writing, no dialogue ends with a config to write.
pub proof fn law_no_write_without_consent(existing: ConfigView, path: Seq<char>, script: Script)
    ensures
        ending(crate::flow::opening(existing, path), script) is Ok ==> script.write == Ok::<
            bool,
            Seq<char>,
        >(true),
{
    law_dialogue_follows_script(existing, path, script);
}

/// The script that accepts every proposal and agrees to everything; it enters
/// nothing for the API key, and the given Brave key.
pub open spec fn accepting(existing: ConfigView, brave_api_key: Seq<char>) -> Script {
    Script {
        collapse: Ok(true),
        bind_addr: Ok(existing.bind_addr),
        upstream_url: Ok(crate::wizard::proposed_url(existing)),
        keep_api_key: Ok(true),
        api_key: Ok(Seq::empty()),
        upstream_model: Ok(crate::wizard::proposed_model(existing)),
        request_log_path: Ok(crate::wizard::proposed_log_path(existing)),
        chat_kwargs: crate::wizard::proposed_chat_kwargs_text(existing),
        brave_url: Ok(existing.brave_base_url),
        brave_api_key: Ok(brave_api_key),
        brave_max_results: Ok(existing.brave_max_results),
        request_timeout: Ok(existing.request_timeout_secs),
        write: Ok(true),
    }
}

/// The Brave key that keeps the one of a config: the key, or nothing if there is none.
pub open spec fn kept_brave_key(config: ConfigView) -> Seq<char> {
    match config.brave_api_key {
        Some(key) => key,
        None => Seq::empty(),
    }
}

/// Running the wizard over a config that it emitted, accepting every proposal and
/// entering the same Brave key, or again none, ends with the same config, provided that
/// the text proposed for the chat kwargs is read back as the same chat kwargs.
pub proof fn law_accepting_dialogue_keeps_config(
    existing: ConfigView,
    inputs: InputsView,
    path: Seq<char>,
    brave_api_key: Seq<char>,
)
    requires
        crate::wizard::entered_secret(brave_api_key) == crate::wizard::entered_secret(
            inputs.brave_api_key,
        ),
    ensures
        ({
            let config = crate::wizard::configured(existing, inputs);
            crate::wizard::chat_kwargs_survive(config) ==> ending(
                crate::flow::opening(config, path),
                accepting(config, brave_api_key),
            ) == Ok::<ConfigView, Seq<char>>(config)
        }),
{
    let config = crate::wizard::configured(existing, inputs);
    let script = accepting(config, brave_api_key);
    law_dialogue_follows_script(config, path, script);
    crate::laws::law_accepting_proposals_changes_nothing(existing, inputs, brave_api_key);
    if crate::wizard::chat_kwargs_survive(config) {
        assert(crate::text::is_blank(Seq::<char>::empty()));
        assert(gathered(config, script) == crate::laws::accepted(config, brave_api_key));
    }
}

/// A config that some dialogue ended with.
pub open spec fn is_dialogue_result(config: ConfigView) -> bool {
    exists|existing: ConfigView, path: Seq<char>, script: Script|
        #[trigger] ending(crate::flow::opening(existing, path), script) == Ok::<
            ConfigView,
            Seq<char>,
        >(config)
}

/// Running the wizard over a config, wherever it is kept, accepting every proposal and
/// keeping the Brave key, starts without a warning and ends with the same config.
pub open spec fn rerun_keeps(config: ConfigView) -> bool {
    forall|path: Seq<char>|
        {
            &&& (#[trigger] crate::flow::opening(config, path) matches StepView::Ask { flow, .. }
                && flow.stage is BindAddress)
            &&& ending(
                crate::flow::opening(config, path),
                accepting(config, kept_brave_key(config)),
            ) == Ok::<ConfigView, Seq<char>>(config)
        }
}

/// Rerunning the wizard over what it ended with, accepting every proposal, changes
/// nothing if the chat kwargs hold no number with a fraction or an exponent.
pub open spec fn rerun_keeps_float_free(config: ConfigView) -> bool {
    is_dialogue_result(config) && crate::json::is_float_free(
        crate::wizard::proposed_chat_kwargs(config),
    ) ==> rerun_keeps(config)
}

/// The chat kwargs of a config that a dialogue ended with are none or were read from
/// some text. If the text proposed for them is read back as the same chat kwargs,
/// rerunning the wizard over the config and accepting every proposal changes nothing.
pub proof fn law_rerun_keeps_config(config: ConfigView)
    ensures
        is_dialogue_result(config) ==> {
            &&& crate::wizard::proposed_chat_kwargs(config).len() == 0 || crate::json::is_readable(
                crate::wizard::proposed_chat_kwargs(config),
            )
            &&& crate::wizard::chat_kwargs_survive(config) ==> rerun_keeps(config)
        },
{
    if is_dialogue_result(config) {
        let (existing, first_path, script) = choose|
            existing: ConfigView,
            path: Seq<char>,
            script: Script,
        |
            #[trigger] ending(crate::flow::opening(existing, path), script) == Ok::<
                ConfigView,
                Seq<char>,
            >(config);
        let inputs = gathered(existing, script);
        law_dialogue_follows_script(existing, first_path, script);
        assert(config == crate::wizard::configured(existing, inputs));
        assert(config.upstreams[0].name == "default"@);
        assert(crate::wizard::proposed_upstream(config) == Some(config.upstreams[0]));
        assert(crate::text::is_blank(Seq::<char>::empty()));
        if crate::wizard::chat_kwargs_survive(config) {
            assert forall|path: Seq<char>|
                {
                    &&& (#[trigger] crate::flow::opening(config, path) matches StepView::Ask {
                        flow,
                        ..
                    } && flow.stage is BindAddress)
                    &&& ending(
                        crate::flow::opening(config, path),
                        accepting(config, kept_brave_key(config)),
                    ) == Ok::<ConfigView, Seq<char>>(config)
                } by {
                law_accepting_dialogue_keeps_config(
                    existing,
                    inputs,
                    path,
                    kept_brave_key(config),
                );
            }
        }
    }
}

} // verus!

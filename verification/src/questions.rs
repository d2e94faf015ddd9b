//! What holds of the questions of the dialogue, and of each answer to them.

use vstd::prelude::*;

use crate::config::ConfigView;
use crate::flow::{AnswerView, FlowView, PromptView, Stage, StepView};
use crate::transcript::Script;
use crate::wizard::InputsView;

verus! {

/// The texts that are asked for: how each is asked for, what is filled in, and whether it
/// may be empty. What is filled in for the bind address and the Brave URL is what the
/// existing config says.
pub proof fn law_text_questions(flow: FlowView)
    ensures
        flow.stage is BindAddress ==> crate::flow::question(flow) == Ok::<PromptView, Seq<char>>(
            PromptView::Input {
                message: "Bind address"@,
                default: flow.existing.bind_addr,
                allow_empty: false,
            },
        ),
        flow.stage is UpstreamUrl ==> crate::flow::question(flow) == Ok::<PromptView, Seq<char>>(
            PromptView::Input {
                message: "Upstream chat-completions base URL"@,
                default: crate::wizard::proposed_url(flow.existing),
                allow_empty: false,
            },
        ),
        flow.stage is UpstreamModel ==> crate::flow::question(flow) == Ok::<PromptView, Seq<char>>(
            PromptView::Input {
                message: "Upstream model override (leave blank to pass through request model)"@,
                default: crate::wizard::proposed_model(flow.existing),
                allow_empty: true,
            },
        ),
        flow.stage is RequestLogPath ==> crate::flow::question(flow) == Ok::<PromptView, Seq<char>>(
            PromptView::Input {
                message: "Upstream request JSONL log path (leave blank to disable)"@,
                default: crate::wizard::proposed_log_path(flow.existing),
                allow_empty: true,
            },
        ),
        flow.stage is BraveUrl ==> crate::flow::question(flow) == Ok::<PromptView, Seq<char>>(
            PromptView::Input {
                message: "Brave Search base URL"@,
                default: flow.existing.brave_base_url,
                allow_empty: false,
            },
        ),
        flow.stage is ChatKwargs ==> match crate::wizard::proposed_chat_kwargs_text(flow.existing) {
            Ok(text) => crate::flow::question(flow) == Ok::<PromptView, Seq<char>>(
                PromptView::Input {
                    message: "Extra upstream chat kwargs as JSON object (leave blank for none)"@,
                    default: text,
                    allow_empty: true,
                },
            ),
            Err(message) => crate::flow::question(flow) == Err::<PromptView, Seq<char>>(message),
        },
{
}

/// What else is asked for: yes or no, secrets, and numbers. Losing upstreams or profiles is
/// not agreed to by default; keeping the key and writing are. The numbers filled in are
/// those of the existing config.
pub proof fn law_other_questions(flow: FlowView)
    ensures
        flow.stage is ConfirmCollapse ==> crate::flow::question(flow) == Ok::<
            PromptView,
            Seq<char>,
        >(PromptView::Confirm { message: "Continue anyway?"@, default: false }),
        flow.stage is KeepApiKey ==> crate::flow::question(flow) == Ok::<PromptView, Seq<char>>(
            PromptView::Confirm { message: "Keep existing upstream API key?"@, default: true },
        ),
        flow.stage is ConfirmWrite ==> crate::flow::question(flow) == Ok::<PromptView, Seq<char>>(
            PromptView::Confirm {
                message: "Write configuration to "@ + flow.path + "?"@,
                default: true,
            },
        ),
        flow.stage is ApiKey ==> crate::flow::question(flow) == Ok::<PromptView, Seq<char>>(
            PromptView::Password { message: "Upstream API key (leave blank for local/no auth)"@ },
        ),
        flow.stage is BraveApiKey ==> crate::flow::question(flow) == Ok::<PromptView, Seq<char>>(
            PromptView::Password {
                message: "Brave Search API key (leave blank to disable provider-side web_search)"@,
            },
        ),
        flow.stage is BraveMaxResults ==> crate::flow::question(flow) == Ok::<
            PromptView,
            Seq<char>,
        >(
            PromptView::Count {
                message: "Brave max results"@,
                default: flow.existing.brave_max_results,
            },
        ),
        flow.stage is RequestTimeout ==> crate::flow::question(flow) == Ok::<PromptView, Seq<char>>(
            PromptView::Seconds {
                message: "Request timeout (seconds)"@,
                default: flow.existing.request_timeout_secs,
            },
        ),
{
}

/// An answer fits a dialogue exactly if it is of the kind that the question is of; a
/// failure always fits.
pub proof fn law_answers_fit_questions(flow: FlowView, answer: AnswerView)
    ensures
        crate::flow::question(flow) matches Ok(prompt) ==> (crate::flow::accepts(
            flow.stage,
            answer,
        ) <==> match answer {
            AnswerView::Confirmed(_) => prompt is Confirm,
            AnswerView::Text(_) => prompt is Input || prompt is Password,
            AnswerView::Count(_) => prompt is Count,
            AnswerView::Seconds(_) => prompt is Seconds,
            AnswerView::Failed(_) => true,
        }),
        flow.stage is ChatKwargs ==> (crate::flow::accepts(flow.stage, answer) <==> answer is Text
            || answer is Failed),
{
}

/// The dialogue opens with two lines that name the config file, then the warning if one is
/// due. It first asks whether to go on if there is a warning, and else for the bind
/// address.
pub proof fn law_opening(existing: ConfigView, path: Seq<char>)
    ensures
        crate::flow::opening(existing, path) matches StepView::Ask { flow, notices, prompt } && {
            let warning = crate::wizard::collapse_warning(existing);
            &&& flow.existing == existing
            &&& flow.path == path
            &&& warning is Some ==> flow.stage is ConfirmCollapse && notices == seq![
                "Configuring llmconduit"@,
                "Config file: "@ + path,
                warning->Some_0,
            ]
            &&& warning is None ==> flow.stage is BindAddress && notices == seq![
                "Configuring llmconduit"@,
                "Config file: "@ + path,
            ]
            &&& crate::flow::question(flow) == Ok::<PromptView, Seq<char>>(prompt)
        },
{
    if crate::wizard::collapse_warning(existing) is Some {
        assert(crate::flow::opening_notices(existing, path) =~= seq![
            "Configuring llmconduit"@,
            "Config file: "@ + path,
            crate::wizard::collapse_warning(existing)->Some_0,
        ]);
    } else {
        assert(crate::flow::opening_notices(existing, path) =~= seq![
            "Configuring llmconduit"@,
            "Config file: "@ + path,
        ]);
    }
}

/// Every question that follows an answer is the one of its stage, comes without notices,
/// and is about the same existing config, kept at the same path.
pub proof fn law_next_question(flow: FlowView, answer: AnswerView)
    ensures
        crate::flow::next(flow, answer) matches StepView::Ask { flow: after, notices, prompt } ==> {
            &&& crate::flow::question(after) == Ok::<PromptView, Seq<char>>(prompt)
            &&& notices.len() == 0
            &&& after.existing == flow.existing
            &&& after.path == flow.path
        },
{
}

/// A text is recorded under the setting that was asked for, as it was entered, and changes
/// no other; the questions come in their order. A secret that is blank is no secret. The
/// text of the chat kwargs is kept until all settings are there.
pub proof fn law_texts_are_recorded(flow: FlowView, text: Seq<char>)
    ensures
        crate::flow::accepts(flow.stage, AnswerView::Text(text)) && !(flow.stage is RequestLogPath)
            ==> crate::flow::next(flow, AnswerView::Text(text)) is Ask,
        crate::flow::next(flow, AnswerView::Text(text)) matches StepView::Ask {
            flow: after,
            ..
        } ==> {
            &&& flow.stage is BindAddress ==> after.stage is UpstreamUrl && after.chat_kwargs_text
                == flow.chat_kwargs_text && after.inputs == (InputsView {
                bind_addr: text,
                ..flow.inputs
            })
            &&& flow.stage is UpstreamUrl ==> after.chat_kwargs_text == flow.chat_kwargs_text
                && after.inputs == (InputsView { upstream_base_url: text, ..flow.inputs }) && if
                crate::wizard::proposed_api_key(flow.existing) is Some {
                after.stage is KeepApiKey
            } else {
                after.stage is ApiKey
            }
            &&& flow.stage is ApiKey ==> after.stage is UpstreamModel && after.chat_kwargs_text
                == flow.chat_kwargs_text && after.inputs == (InputsView {
                upstream_api_key: if crate::text::is_blank(text) {
                    None
                } else {
                    Some(text)
                },
                ..flow.inputs
            })
            &&& flow.stage is UpstreamModel ==> after.stage is RequestLogPath
                && after.chat_kwargs_text == flow.chat_kwargs_text && after.inputs == (InputsView {
                upstream_model: text,
                ..flow.inputs
            })
            &&& flow.stage is RequestLogPath ==> after.stage is ChatKwargs && after.chat_kwargs_text
                == flow.chat_kwargs_text && after.inputs == (InputsView {
                upstream_request_log_path: text,
                ..flow.inputs
            })
            &&& flow.stage is ChatKwargs ==> after.stage is BraveUrl && after.chat_kwargs_text
                == text && after.inputs == flow.inputs
            &&& flow.stage is BraveUrl ==> after.stage is BraveApiKey && after.chat_kwargs_text
                == flow.chat_kwargs_text && after.inputs == (InputsView {
                brave_base_url: text,
                ..flow.inputs
            })
            &&& flow.stage is BraveApiKey ==> after.stage is BraveMaxResults
                && after.chat_kwargs_text == flow.chat_kwargs_text && after.inputs == (InputsView {
                brave_api_key: text,
                ..flow.inputs
            })
        },
{
}

/// A number is recorded under the setting that was asked for and changes no other. With the
/// last one, the chat kwargs are read: if they can be, they are recorded too and the write
/// is offered; if not, the dialogue fails and says why.
pub proof fn law_numbers_are_recorded(flow: FlowView, n: usize, secs: u64)
    ensures
        crate::flow::next(flow, AnswerView::Count(n)) matches StepView::Ask { flow: after, .. }
            && after.stage is RequestTimeout && after.chat_kwargs_text == flow.chat_kwargs_text
            && after.inputs == (InputsView { brave_max_results: n, ..flow.inputs }),
        match crate::wizard::entered_chat_kwargs(flow.chat_kwargs_text) {
            Ok(entries) => crate::flow::next(flow, AnswerView::Seconds(secs)) matches StepView::Ask {
                flow: after,
                ..
            } && after.stage is ConfirmWrite && after.chat_kwargs_text == flow.chat_kwargs_text
                && after.inputs == (InputsView {
                request_timeout_secs: secs,
                upstream_chat_kwargs: entries,
                ..flow.inputs
            }),
            Err(message) => crate::flow::next(flow, AnswerView::Seconds(secs)) == StepView::Fail(
                message,
            ),
        },
{
}

/// Consent to a loss leads to the first setting; refusing it, or refusing the write, cancels
/// the dialogue. The existing key is recorded if it is kept, and a new one asked for if
/// not. Consent to the write leads to the config that the answers make.
pub proof fn law_confirmations(flow: FlowView)
    ensures
        flow.stage is ConfirmCollapse ==> {
            &&& crate::flow::next(flow, AnswerView::Confirmed(true)) matches StepView::Ask {
                flow: after,
                ..
            } && after.stage is BindAddress && after.chat_kwargs_text == flow.chat_kwargs_text
                && after.inputs == flow.inputs
            &&& crate::flow::next(flow, AnswerView::Confirmed(false)) == StepView::Fail(
                "configuration cancelled"@,
            )
        },
        flow.stage is KeepApiKey ==> {
            &&& crate::flow::next(flow, AnswerView::Confirmed(true)) matches StepView::Ask {
                flow: after,
                ..
            } && after.stage is UpstreamModel && after.chat_kwargs_text == flow.chat_kwargs_text
                && after.inputs == (InputsView {
                upstream_api_key: crate::wizard::proposed_api_key(flow.existing),
                ..flow.inputs
            })
            &&& crate::flow::next(flow, AnswerView::Confirmed(false)) matches StepView::Ask {
                flow: after,
                ..
            } && after.stage is ApiKey && after.chat_kwargs_text == flow.chat_kwargs_text
                && after.inputs == flow.inputs
        },
        flow.stage is ConfirmWrite ==> {
            &&& crate::flow::next(flow, AnswerView::Confirmed(true)) == StepView::Write(
                crate::wizard::configured(flow.existing, flow.inputs),
            )
            &&& crate::flow::next(flow, AnswerView::Confirmed(false)) == StepView::Fail(
                "configuration cancelled"@,
            )
        },
{
}

/// A question that could not be put ends the dialogue with a message that says which one,
/// followed by why.
pub proof fn law_failures_are_named(flow: FlowView, why: Seq<char>)
    ensures
        crate::flow::next(flow, AnswerView::Failed(why)) == StepView::Fail(
            match flow.stage {
                Stage::ConfirmCollapse => "failed to confirm config collapse: "@,
                Stage::BindAddress => "failed to read bind address: "@,
                Stage::UpstreamUrl => "failed to read upstream URL: "@,
                Stage::KeepApiKey => "failed to confirm upstream API key: "@,
                Stage::ApiKey => "failed to read upstream API key: "@,
                Stage::UpstreamModel => "failed to read upstream model override: "@,
                Stage::RequestLogPath => "failed to read upstream request log path: "@,
                Stage::ChatKwargs => "failed to read upstream chat kwargs: "@,
                Stage::BraveUrl => "failed to read Brave URL: "@,
                Stage::BraveApiKey => "failed to read Brave API key: "@,
                Stage::BraveMaxResults => "failed to read Brave max results: "@,
                Stage::RequestTimeout => "failed to read timeout: "@,
                Stage::ConfirmWrite => "failed to confirm config write: "@,
            } + why,
        ),
{
}

/// A fitting answer is followed by another question exactly where the dialogue is said to go
/// on. A text always is: only the chat kwargs, if they cannot be encoded, keep their own
/// question from being put.
pub proof fn law_goes_on(flow: FlowView, answer: AnswerView)
    requires
        crate::flow::accepts(flow.stage, answer),
    ensures
        crate::wizard::proposed_chat_kwargs_text(flow.existing) is Ok ==> (crate::flow::goes_on(
            flow,
            answer,
        ) <==> crate::flow::next(flow, answer) is Ask),
        !(flow.stage is RequestLogPath) ==> (crate::flow::goes_on(flow, answer)
            <==> crate::flow::next(flow, answer) is Ask),
        flow.stage is RequestLogPath ==> (crate::flow::goes_on(flow, answer) <==> answer is Text),
        flow.stage is RequestLogPath && answer is Text && crate::flow::next(flow, answer) is Fail
            ==> crate::wizard::proposed_chat_kwargs_text(flow.existing) == Err::<
            Seq<char>,
            Seq<char>,
        >(crate::flow::next(flow, answer)->Fail_0),
{
}

/// A dialogue ends with a config to write exactly if every question that is put gets an
/// answer, the loss, if there is one, and the write are agreed to, and the text entered for
/// the chat kwargs is blank or read as a JSON object.
pub proof fn law_success(existing: ConfigView, path: Seq<char>, script: Script)
    ensures
        ({
            let loses = existing.upstreams.len() > 1 || existing.model_profiles.len() > 1;
            let has_key = crate::wizard::proposed_api_key(existing) is Some;
            let yes = Ok::<bool, Seq<char>>(true);
            let ending = crate::transcript::ending(crate::flow::opening(existing, path), script);
            ending is Ok <==> {
                &&& loses ==> script.collapse == yes
                &&& script.bind_addr is Ok
                &&& script.upstream_url is Ok
                &&& has_key ==> script.keep_api_key is Ok
                &&& !has_key || script.keep_api_key != yes ==> script.api_key is Ok
                &&& script.upstream_model is Ok
                &&& script.request_log_path is Ok
                &&& crate::wizard::proposed_chat_kwargs_text(existing) is Ok
                &&& script.chat_kwargs is Ok
                &&& script.brave_url is Ok
                &&& script.brave_api_key is Ok
                &&& script.brave_max_results is Ok
                &&& script.request_timeout is Ok
                &&& crate::text::is_blank(script.chat_kwargs->Ok_0)
                    || crate::json::parsed_json_object(script.chat_kwargs->Ok_0) is Ok
                &&& script.write == yes
            }
        }),
{
    crate::transcript::law_dialogue_follows_script(existing, path, script);
}

/// In the config that a dialogue ends with, every setting that was asked for is what was
/// answered: texts, secrets and numbers as they were entered, the model and the log path
/// without the whitespace around them, and the chat kwargs as they were read.
pub proof fn law_answers_reach_config(existing: ConfigView, path: Seq<char>, script: Script)
    ensures
        crate::transcript::ending(crate::flow::opening(existing, path), script) matches Ok(config)
            ==> {
            let has_key = crate::wizard::proposed_api_key(existing) is Some;
            let kept = has_key && script.keep_api_key == Ok::<bool, Seq<char>>(true);
            let key = script.api_key->Ok_0;
            let model = script.upstream_model->Ok_0;
            let log_path = script.request_log_path->Ok_0;
            let brave_key = script.brave_api_key->Ok_0;
            let kwargs = script.chat_kwargs->Ok_0;
            let upstream = config.upstreams[0];
            let profile = config.model_profiles[0].1;
            &&& config.bind_addr == script.bind_addr->Ok_0
            &&& config.upstreams.len() == 1
            &&& upstream.name == "default"@
            &&& upstream.url == script.upstream_url->Ok_0
            &&& kept ==> upstream.api_key == crate::wizard::proposed_api_key(existing)
            &&& !kept && crate::text::is_blank(key) ==> upstream.api_key is None
            &&& !kept && !crate::text::is_blank(key) ==> upstream.api_key == Some(key)
            &&& crate::text::is_blank(log_path) ==> upstream.request_log_path is None
            &&& !crate::text::is_blank(log_path) ==> upstream.request_log_path == Some(
                crate::text::trimmed(log_path),
            )
            &&& crate::text::is_blank(kwargs) ==> upstream.chat_kwargs.len() == 0
            &&& !crate::text::is_blank(kwargs) ==> upstream.chat_kwargs
                == crate::json::parsed_json_object(kwargs)->Ok_0
            &&& config.model_profiles.len() == 1
            &&& config.model_profiles[0].0 == "*"@
            &&& profile.upstream == Some("default"@)
            &&& crate::text::is_blank(model) ==> profile.upstream_model is None
            &&& !crate::text::is_blank(model) ==> profile.upstream_model == Some(
                crate::text::trimmed(model),
            )
            &&& config.brave_base_url == script.brave_url->Ok_0
            &&& crate::text::is_blank(brave_key) ==> config.brave_api_key is None
            &&& !crate::text::is_blank(brave_key) ==> config.brave_api_key == Some(brave_key)
            &&& config.brave_max_results == script.brave_max_results->Ok_0
            &&& config.request_timeout_secs == script.request_timeout->Ok_0
        },
{
    crate::transcript::law_dialogue_follows_script(existing, path, script);
}

/// The answer that takes what a question itself fills in; `secret` is typed where nothing
/// is filled in.
pub open spec fn default_answer(prompt: PromptView, secret: Seq<char>) -> AnswerView {
    match prompt {
        PromptView::Confirm { default, .. } => AnswerView::Confirmed(default),
        PromptView::Input { default, .. } => AnswerView::Text(default),
        PromptView::Password { .. } => AnswerView::Text(secret),
        PromptView::Count { default, .. } => AnswerView::Count(default),
        PromptView::Seconds { default, .. } => AnswerView::Seconds(default),
    }
}

/// How a dialogue ends if every question that is put is answered with what it itself fills
/// in, and the two secrets are typed. It ends without a message at a question that its own
/// default does not fit.
pub open spec fn ending_by_defaults(
    step: StepView,
    api_key: Seq<char>,
    brave_api_key: Seq<char>,
) -> Result<ConfigView, Seq<char>>
    decreases crate::transcript::questions_after(step),
{
    match step {
        StepView::Ask { flow, prompt, .. } => {
            let secret = if flow.stage is BraveApiKey {
                brave_api_key
            } else {
                api_key
            };
            let answer = default_answer(prompt, secret);
            if crate::flow::accepts(flow.stage, answer) {
                ending_by_defaults(crate::flow::next(flow, answer), api_key, brave_api_key)
            } else {
                Err(Seq::empty())
            }
        },
        StepView::Write(config) => Ok(config),
        StepView::Fail(message) => Err(message),
    }
}

/// Taking what the questions fill in keeps every setting that they are about: from the bind
/// address on, the dialogue ends with a config that has the existing one's bind address,
/// URL, key, model, log path, chat kwargs, Brave URL and numbers. The API key is typed if
/// there is none to keep, and the Brave key is typed always. This holds where the text
/// proposed for the chat kwargs is read back as the same chat kwargs.
pub proof fn law_defaults_keep_settings(
    flow: FlowView,
    notices: Seq<Seq<char>>,
    api_key: Seq<char>,
    brave_api_key: Seq<char>,
)
    requires
        flow.stage is BindAddress,
    ensures
        crate::wizard::chat_kwargs_survive(flow.existing) ==> {
            let existing = flow.existing;
            let kept = crate::wizard::proposed_api_key(existing);
            let model = crate::wizard::proposed_model(existing);
            let log_path = crate::wizard::proposed_log_path(existing);
            let ending = ending_by_defaults(
                crate::flow::asked(flow, notices),
                api_key,
                brave_api_key,
            );
            &&& ending is Ok
            &&& {
                let config = ending->Ok_0;
                let upstream = config.upstreams[0];
                let profile = config.model_profiles[0].1;
                &&& config.bind_addr == existing.bind_addr
                &&& upstream.url == crate::wizard::proposed_url(existing)
                &&& kept is Some ==> upstream.api_key == kept
                &&& kept is None && crate::text::is_blank(api_key) ==> upstream.api_key is None
                &&& kept is None && !crate::text::is_blank(api_key) ==> upstream.api_key == Some(
                    api_key,
                )
                &&& crate::text::is_blank(model) ==> profile.upstream_model is None
                &&& !crate::text::is_blank(model) ==> profile.upstream_model == Some(
                    crate::text::trimmed(model),
                )
                &&& crate::text::is_blank(log_path) ==> upstream.request_log_path is None
                &&& !crate::text::is_blank(log_path) ==> upstream.request_log_path == Some(
                    crate::text::trimmed(log_path),
                )
                &&& upstream.chat_kwargs == crate::wizard::proposed_chat_kwargs(existing)
                &&& config.brave_base_url == existing.brave_base_url
                &&& crate::text::is_blank(brave_api_key) ==> config.brave_api_key is None
                &&& !crate::text::is_blank(brave_api_key) ==> config.brave_api_key == Some(
                    brave_api_key,
                )
                &&& config.brave_max_results == existing.brave_max_results
                &&& config.request_timeout_secs == existing.request_timeout_secs
            }
        },
{
    lemma_defaults_are_accepted(flow, notices, api_key, brave_api_key);
}

proof fn lemma_defaults_are_accepted(
    flow: FlowView,
    notices: Seq<Seq<char>>,
    api_key: Seq<char>,
    brave_api_key: Seq<char>,
)
    requires
        flow.stage is BindAddress,
    ensures
        crate::wizard::chat_kwargs_survive(flow.existing) ==> ending_by_defaults(
            crate::flow::asked(flow, notices),
            api_key,
            brave_api_key,
        ) == Ok::<ConfigView, Seq<char>>(
            crate::wizard::configured(
                flow.existing,
                InputsView {
                    upstream_api_key: if crate::wizard::proposed_api_key(flow.existing) is Some {
                        crate::wizard::proposed_api_key(flow.existing)
                    } else {
                        crate::wizard::entered_secret(api_key)
                    },
                    ..crate::laws::accepted(flow.existing, brave_api_key)
                },
            ),
        ),
{
    reveal_with_fuel(ending_by_defaults, 14);
}

/// Taking what the questions fill in never agrees to a loss: the dialogue is cancelled.
pub proof fn law_defaults_refuse_loss(
    existing: ConfigView,
    path: Seq<char>,
    api_key: Seq<char>,
    brave_api_key: Seq<char>,
)
    requires
        existing.upstreams.len() > 1 || existing.model_profiles.len() > 1,
    ensures
        ending_by_defaults(crate::flow::opening(existing, path), api_key, brave_api_key) == Err::<
            ConfigView,
            Seq<char>,
        >("configuration cancelled"@),
{
    reveal_with_fuel(ending_by_defaults, 3);
}

/// Over a config that the wizard emitted, taking what the questions fill in, typing no API
/// key and the same Brave key, or again none, ends with the same config, where the text
/// proposed for the chat kwargs is read back as the same chat kwargs.
pub proof fn law_defaults_keep_emitted_config(
    existing: ConfigView,
    inputs: InputsView,
    path: Seq<char>,
    api_key: Seq<char>,
    brave_api_key: Seq<char>,
)
    requires
        crate::text::is_blank(api_key),
        crate::wizard::entered_secret(brave_api_key) == crate::wizard::entered_secret(
            inputs.brave_api_key,
        ),
    ensures
        ({
            let config = crate::wizard::configured(existing, inputs);
            crate::wizard::chat_kwargs_survive(config) ==> ending_by_defaults(
                crate::flow::opening(config, path),
                api_key,
                brave_api_key,
            ) == Ok::<ConfigView, Seq<char>>(config)
        }),
{
    let config = crate::wizard::configured(existing, inputs);
    crate::laws::law_no_warning_after_wizard(existing, inputs);
    crate::laws::law_accepting_proposals_changes_nothing(existing, inputs, brave_api_key);
    law_opening(config, path);
    if let StepView::Ask { flow, notices, prompt } = crate::flow::opening(config, path) {
        lemma_defaults_are_accepted(flow, notices, api_key, brave_api_key);
        assert(crate::flow::opening(config, path) == crate::flow::asked(flow, notices));
    }
}

} // verus!

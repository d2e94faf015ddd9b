//! Views show what is there: nothing is cut, mixed up or left out.

use vstd::prelude::*;

use crate::config::{
    OrderedModelProfiles, PersistedConfig, PersistedModelProfile, PersistedUpstream, Route,
};
use crate::flow::{
    Answer, AnswerView, ConfigureFlow, FlowStep, Prompt, PromptView, StepView,
};
use crate::json::JsonMap;
use crate::wizard::ConfigureFlowInputs;

verus! {

/// A list of objects is viewed object by object, an optional one alike, and none as none.
pub proof fn law_objects_view(v: Vec<JsonMap>)
    ensures
        crate::config::objects_view(v@).len() == v@.len(),
        forall|i: int|
            0 <= i < v@.len() ==> #[trigger] crate::config::objects_view(v@)[i]
                == crate::json::json_entries(v@[i]),
        crate::config::opt_objects_view(Some(v)) == Some(crate::config::objects_view(v@)),
        crate::config::opt_objects_view(None) is None,
{
}

/// A list of upstreams is viewed upstream by upstream.
pub proof fn law_upstreams_view(v: Seq<PersistedUpstream>)
    ensures
        crate::config::upstreams_view(v).len() == v.len(),
        forall|i: int|
            0 <= i < v.len() ==> #[trigger] crate::config::upstreams_view(v)[i] == v[i]@,
{
}

/// Keyed profiles are viewed profile by profile, each under its key.
pub proof fn law_profiles_view(profiles: OrderedModelProfiles)
    ensures
        profiles@.len() == profiles.0@.len(),
        profiles@ == crate::config::profiles_view(profiles.0@),
        forall|i: int|
            0 <= i < profiles.0@.len() ==> (#[trigger] profiles@[i]).0 == profiles.0@[i].0@
                && profiles@[i].1 == profiles.0@[i].1@,
{
}

/// The view of an upstream shows each of its settings.
pub proof fn law_upstream_view(upstream: PersistedUpstream)
    ensures
        upstream@.name == upstream.name@,
        upstream@.url == upstream.url@,
        upstream@.api_key == crate::text::opt_view(upstream.api_key),
        upstream@.chat_kwargs == crate::json::json_entries(upstream.chat_kwargs),
        upstream@.request_log_path == crate::text::opt_view(upstream.request_log_path),
        upstream@.upstream_model == crate::text::opt_view(upstream.upstream_model),
        upstream@.fallback_upstreams == crate::config::opt_objects_view(upstream.fallback_upstreams),
{
}

/// The view of a profile shows each of its settings.
pub proof fn law_profile_view(profile: PersistedModelProfile)
    ensures
        profile@.upstream == crate::text::opt_view(profile.upstream),
        profile@.upstream_model == crate::text::opt_view(profile.upstream_model),
        profile@.extends == crate::text::string_views(profile.extends@),
        profile@.system_prompt_prefix == crate::text::opt_view(profile.system_prompt_prefix),
        profile@.upstream_chat_kwargs == crate::json::json_entries(profile.upstream_chat_kwargs),
        profile@.capabilities == crate::json::opt_entries(profile.capabilities),
        profile@.reasoning_effort == crate::json::opt_entries(profile.reasoning_effort),
        profile@.roles == crate::json::opt_entries(profile.roles),
        profile@.image_analysis == crate::json::opt_entries(profile.image_analysis),
        profile@.extra == crate::json::json_entries(profile.extra),
{
}

/// The view of a config shows each of its settings.
pub proof fn law_config_view(config: PersistedConfig)
    ensures
        config@.bind_addr == config.bind_addr@,
        config@.upstream_base_url == crate::text::opt_view(config.upstream_base_url),
        config@.upstream_api_key == crate::text::opt_view(config.upstream_api_key),
        config@.upstream_model == crate::text::opt_view(config.upstream_model),
        config@.system_prompt_prefix == crate::text::opt_view(config.system_prompt_prefix),
        config@.upstream_request_log_path == crate::text::opt_view(config.upstream_request_log_path),
        config@.turn_capture_dir == crate::text::opt_view(config.turn_capture_dir),
        config@.upstream_chat_kwargs == crate::json::json_entries(config.upstream_chat_kwargs),
        config@.upstreams == crate::config::upstreams_view(config.upstreams@),
        config@.fallback_upstreams == crate::config::opt_objects_view(config.fallback_upstreams),
        config@.upstream_failure_cooldown_secs == config.upstream_failure_cooldown_secs,
        config@.model_profile_templates == crate::config::profiles_view(config.model_profile_templates.0@),
        config@.model_profiles == crate::config::profiles_view(config.model_profiles.0@),
        config@.model_routes == crate::json::opt_entries(config.model_routes),
        config@.template_family == crate::text::opt_view(config.template_family),
        config@.brave_base_url == config.brave_base_url@,
        config@.brave_api_key == crate::text::opt_view(config.brave_api_key),
        config@.brave_max_results == config.brave_max_results,
        config@.request_timeout_secs == config.request_timeout_secs,
        config@.connect_timeout_secs == config.connect_timeout_secs,
        config@.max_web_search_rounds == config.max_web_search_rounds,
        config@.flatten_content == config.flatten_content,
        config@.max_replay_entries == config.max_replay_entries,
        config@.debug_log_max_age_hours == config.debug_log_max_age_hours,
        config@.min_completion_tokens == config.min_completion_tokens,
        config@.max_sse_frame_bytes == config.max_sse_frame_bytes,
        config@.max_request_body_bytes == config.max_request_body_bytes,
        config@.image_agent_enabled == config.image_agent_enabled,
        config@.vision_url == crate::text::opt_view(config.vision_url),
        config@.vision_model == crate::text::opt_view(config.vision_model),
        config@.image_cache_max_size == config.image_cache_max_size,
        config@.image_cache_ttl_secs == config.image_cache_ttl_secs,
        config@.unsupported_image_policy == config.unsupported_image_policy,
        config@.price_table == crate::json::json_entries(config.price_table),
{
}

/// The view of the answers shows each of them.
pub proof fn law_inputs_view(inputs: ConfigureFlowInputs)
    ensures
        inputs@.bind_addr == inputs.bind_addr@,
        inputs@.upstream_base_url == inputs.upstream_base_url@,
        inputs@.upstream_api_key == crate::text::opt_view(inputs.upstream_api_key),
        inputs@.upstream_model == inputs.upstream_model@,
        inputs@.upstream_request_log_path == inputs.upstream_request_log_path@,
        inputs@.upstream_chat_kwargs == crate::json::json_entries(inputs.upstream_chat_kwargs),
        inputs@.brave_base_url == inputs.brave_base_url@,
        inputs@.brave_api_key == inputs.brave_api_key@,
        inputs@.brave_max_results == inputs.brave_max_results,
        inputs@.request_timeout_secs == inputs.request_timeout_secs,
{
}

/// The view of a dialogue shows all of its state.
pub proof fn law_flow_view(flow: ConfigureFlow)
    ensures
        flow@.existing == flow.existing@,
        flow@.path == flow.path@,
        flow@.stage == flow.stage,
        flow@.inputs == flow.inputs@,
        flow@.chat_kwargs_text == flow.chat_kwargs_text@,
{
}

/// The view of a route shows its upstream and its model; an optional route alike.
pub proof fn law_route_view(route: Route)
    ensures
        route@.upstream == route.profile.upstream@,
        route@.served_model == route.served_model@,
        crate::config::opt_route(Some(route)) == Some(route@),
        crate::config::opt_route(None) is None,
{
}

/// The view of a question shows its kind, its wording and its default.
pub proof fn law_prompt_view(prompt: Prompt)
    ensures
        match prompt {
            Prompt::Confirm { message, default } => prompt@ == (PromptView::Confirm {
                message: message@,
                default,
            }),
            Prompt::Input { message, default, allow_empty } => prompt@ == (PromptView::Input {
                message: message@,
                default: default@,
                allow_empty,
            }),
            Prompt::Password { message } => prompt@ == (PromptView::Password { message: message@ }),
            Prompt::Count { message, default } => prompt@ == (PromptView::Count {
                message: message@,
                default,
            }),
            Prompt::Seconds { message, default } => prompt@ == (PromptView::Seconds {
                message: message@,
                default,
            }),
        },
{
}

/// The view of an answer shows its kind and what was answered.
pub proof fn law_answer_view(answer: Answer)
    ensures
        match answer {
            Answer::Confirmed(yes) => answer@ == AnswerView::Confirmed(yes),
            Answer::Text(text) => answer@ == AnswerView::Text(text@),
            Answer::Count(n) => answer@ == AnswerView::Count(n),
            Answer::Seconds(n) => answer@ == AnswerView::Seconds(n),
            Answer::Failed(message) => answer@ == AnswerView::Failed(message@),
        },
{
}

/// The view of a step shows its kind and all that it carries.
pub proof fn law_step_view(step: FlowStep)
    ensures
        match step {
            FlowStep::Ask { flow, notices, prompt } => step@ == (StepView::Ask {
                flow: flow@,
                notices: crate::text::string_views(notices@),
                prompt: prompt@,
            }),
            FlowStep::Write(config) => step@ == StepView::Write(config@),
            FlowStep::Fail(message) => step@ == StepView::Fail(message@),
        },
{
}

} // verus!

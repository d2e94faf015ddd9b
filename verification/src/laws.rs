//! What holds of the wizard as a whole.

use vstd::prelude::*;

use crate::config::{ConfigView, RouteView};
use crate::wizard::InputsView;

verus! {

/// The wizard emits exactly one upstream, named `default`, and exactly one profile,
/// keyed `*`, which points at that upstream.
pub proof fn law_one_upstream_one_profile(existing: ConfigView, inputs: InputsView)
    ensures
        ({
            let config = crate::wizard::configured(existing, inputs);
            &&& config.upstreams.len() == 1
            &&& config.upstreams[0].name == "default"@
            &&& config.model_profiles.len() == 1
            &&& config.model_profiles[0].0 == "*"@
            &&& config.model_profiles[0].1.upstream == Some(config.upstreams[0].name)
        }),
{
}

/// Settings that the wizard does not prompt for are carried through unchanged.
pub proof fn law_unprompted_settings_stay(existing: ConfigView, inputs: InputsView)
    ensures
        ({
            let config = crate::wizard::configured(existing, inputs);
            &&& config.system_prompt_prefix == existing.system_prompt_prefix
            &&& config.turn_capture_dir == existing.turn_capture_dir
            &&& config.upstream_chat_kwargs == existing.upstream_chat_kwargs
            &&& config.upstream_failure_cooldown_secs == existing.upstream_failure_cooldown_secs
            &&& config.model_profile_templates == existing.model_profile_templates
            &&& config.template_family == existing.template_family
            &&& config.connect_timeout_secs == existing.connect_timeout_secs
            &&& config.max_web_search_rounds == existing.max_web_search_rounds
            &&& config.flatten_content == existing.flatten_content
            &&& config.max_replay_entries == existing.max_replay_entries
            &&& config.debug_log_max_age_hours == existing.debug_log_max_age_hours
            &&& config.min_completion_tokens == existing.min_completion_tokens
            &&& config.max_sse_frame_bytes == existing.max_sse_frame_bytes
            &&& config.max_request_body_bytes == existing.max_request_body_bytes
            &&& config.image_cache_max_size == existing.image_cache_max_size
            &&& config.image_cache_ttl_secs == existing.image_cache_ttl_secs
            &&& config.price_table == existing.price_table
        }),
{
}

/// In a config that the wizard emitted, the catch-all profile's route goes to the
/// `default` upstream. It is served by the requested model if no default model was
/// entered, and by the entered one, without the whitespace around it, whatever was
/// requested, if one was. This is about the catch-all profile's route alone and leaves
/// the upstream's own `upstream_model`, which the wizard does not set, aside.
pub proof fn law_default_model(existing: ConfigView, inputs: InputsView, model: Seq<char>)
    ensures
        crate::config::catch_all_route(crate::wizard::configured(existing, inputs), model) == Some(
            RouteView {
                upstream: "default"@,
                served_model: if crate::text::is_blank(inputs.upstream_model) {
                    model
                } else {
                    crate::text::trimmed(inputs.upstream_model)
                },
            },
        ),
{
    let config = crate::wizard::configured(existing, inputs);
    assert(config.model_profiles[0].0 == "*"@);
    assert(config.upstreams[0].name == "default"@);
}

/// The wizard warns exactly if it is about to drop an upstream or a profile.
pub proof fn law_warns_of_every_loss(existing: ConfigView)
    ensures
        crate::wizard::collapse_warning(existing) is Some <==> (existing.upstreams.len() > 1
            || existing.model_profiles.len() > 1),
{
}

/// The warning names every upstream if there is more than one.
pub proof fn law_warning_names_upstreams(existing: ConfigView, i: int)
    requires
        existing.upstreams.len() > 1,
        0 <= i < existing.upstreams.len(),
    ensures
        crate::wizard::collapse_warning(existing) is Some,
        crate::text::occurs_in(
            existing.upstreams[i].name,
            crate::wizard::collapse_warning(existing)->Some_0,
        ),
{
    let names = crate::wizard::upstream_names(existing.upstreams);
    lemma_warning_holds_item(existing, 0, names, " upstreams ("@, i);
}

/// The warning names the key of every profile if there is more than one.
pub proof fn law_warning_names_profiles(existing: ConfigView, i: int)
    requires
        existing.model_profiles.len() > 1,
        0 <= i < existing.model_profiles.len(),
    ensures
        crate::wizard::collapse_warning(existing) is Some,
        crate::text::occurs_in(
            existing.model_profiles[i].0,
            crate::wizard::collapse_warning(existing)->Some_0,
        ),
{
    let keys = crate::wizard::profile_keys(existing.model_profiles);
    let k = crate::wizard::dropped_items(existing).len() - 1;
    lemma_warning_holds_item(existing, k, keys, " profiles ("@, i);
}

proof fn lemma_warning_holds_item(
    existing: ConfigView,
    k: int,
    names: Seq<Seq<char>>,
    what: Seq<char>,
    i: int,
)
    requires
        crate::wizard::collapse_warning(existing) is Some,
        0 <= k < crate::wizard::dropped_items(existing).len(),
        crate::wizard::dropped_items(existing)[k] == crate::wizard::counted(names, what),
        0 <= i < names.len(),
    ensures
        crate::text::occurs_in(names[i], crate::wizard::collapse_warning(existing)->Some_0),
{
    let items = crate::wizard::dropped_items(existing);
    let list = crate::text::joined(names, ", "@);
    let all = crate::text::joined(items, " and "@);
    let warning = crate::wizard::collapse_warning(existing)->Some_0;
    let head = crate::text::decimal(names.len()) + what;
    crate::text::lemma_joined_holds_each(names, ", "@, i);
    crate::text::lemma_occurs_within(names[i], list, head, ")"@);
    crate::text::lemma_joined_holds_each(items, " and "@, k);
    let (before, after) = choose|b: Seq<char>, a: Seq<char>| all == #[trigger] (b + items[k] + a);
    crate::text::lemma_occurs_within(names[i], items[k], before, after);
    let start = "The existing config has "@;
    let end =
        " that will be collapsed into a single `default` upstream and a `\"*\"` profile if you continue."@;
    crate::text::lemma_occurs_within(names[i], all, start, end);
    assert(warning == start + all + end);
}

/// A config that the wizard emitted can be configured again without a warning.
pub proof fn law_no_warning_after_wizard(existing: ConfigView, inputs: InputsView)
    ensures
        crate::wizard::collapse_warning(crate::wizard::configured(existing, inputs)) is None,
{
}

/// The last answers alone count: what was answered before leaves no trace. In
/// particular, giving the same answers again changes nothing.
pub proof fn law_last_answers_win(existing: ConfigView, first: InputsView, second: InputsView)
    ensures
        crate::wizard::configured(crate::wizard::configured(existing, first), second)
            == crate::wizard::configured(existing, second),
{
}

/// The answers that accept every proposal; the Brave key, of which none is proposed,
/// is entered.
pub open spec fn accepted(existing: ConfigView, brave_api_key: Seq<char>) -> InputsView {
    InputsView {
        bind_addr: existing.bind_addr,
        upstream_base_url: crate::wizard::proposed_url(existing),
        upstream_api_key: crate::wizard::proposed_api_key(existing),
        upstream_model: crate::wizard::proposed_model(existing),
        upstream_request_log_path: crate::wizard::proposed_log_path(existing),
        upstream_chat_kwargs: crate::wizard::proposed_chat_kwargs(existing),
        brave_base_url: existing.brave_base_url,
        brave_api_key,
        brave_max_results: existing.brave_max_results,
        request_timeout_secs: existing.request_timeout_secs,
    }
}

/// Over a config that the wizard emitted, the proposals are the answers that it was
/// given, without the whitespace around the model and the log path.
pub proof fn law_proposals_repeat_answers(existing: ConfigView, inputs: InputsView)
    ensures
        ({
            let config = crate::wizard::configured(existing, inputs);
            accepted(config, inputs.brave_api_key) == InputsView {
                upstream_model: crate::text::trimmed(inputs.upstream_model),
                upstream_request_log_path: crate::text::trimmed(inputs.upstream_request_log_path),
                ..inputs
            }
        }),
{
    let config = crate::wizard::configured(existing, inputs);
    let upstream = config.upstreams[0];
    crate::text::lemma_trimmed(inputs.upstream_model);
    crate::text::lemma_trimmed(inputs.upstream_request_log_path);
    assert(upstream.name == "default"@);
    assert(crate::wizard::proposed_upstream(config) == Some(upstream));
    assert(config.model_profiles[0].0 == "*"@);
    if crate::text::is_blank(inputs.upstream_model) {
        assert(crate::text::trimmed(inputs.upstream_model) =~= Seq::empty());
    }
    if crate::text::is_blank(inputs.upstream_request_log_path) {
        assert(crate::text::trimmed(inputs.upstream_request_log_path) =~= Seq::empty());
    }
}

/// Accepting every proposal over a config that the wizard emitted, and entering the
/// same Brave key, or again none, gives the same config.
pub proof fn law_accepting_proposals_changes_nothing(
    existing: ConfigView,
    inputs: InputsView,
    brave_api_key: Seq<char>,
)
    requires
        crate::wizard::entered_secret(brave_api_key) == crate::wizard::entered_secret(
            inputs.brave_api_key,
        ),
    ensures
        ({
            let config = crate::wizard::configured(existing, inputs);
            crate::wizard::configured(config, accepted(config, brave_api_key)) == config
        }),
{
    let config = crate::wizard::configured(existing, inputs);
    let again = accepted(config, brave_api_key);
    law_proposals_repeat_answers(existing, inputs);
    crate::text::lemma_trimmed(inputs.upstream_model);
    crate::text::lemma_trimmed(inputs.upstream_request_log_path);
    lemma_non_blank_of_trimmed(inputs.upstream_model);
    lemma_non_blank_of_trimmed(inputs.upstream_request_log_path);
    assert(crate::wizard::configured_upstream(again) == crate::wizard::configured_upstream(inputs));
    assert(crate::wizard::configured_profile(again) == crate::wizard::configured_profile(inputs));
}

proof fn lemma_non_blank_of_trimmed(s: Seq<char>)
    ensures
        crate::text::non_blank(crate::text::trimmed(s)) == crate::text::non_blank(s),
{
    crate::text::lemma_trimmed(s);
    if crate::text::is_blank(s) {
        assert(crate::text::is_blank(crate::text::trimmed(s)));
    }
}

/// What was answered stands in the emitted config as it was answered, character for
/// character: addresses, keys, arguments and numbers.
pub proof fn law_answers_stand_as_given(existing: ConfigView, inputs: InputsView)
    ensures
        ({
            let config = crate::wizard::configured(existing, inputs);
            &&& config.bind_addr == inputs.bind_addr
            &&& config.upstreams.len() == 1
            &&& config.upstreams[0].url == inputs.upstream_base_url
            &&& config.upstreams[0].api_key == inputs.upstream_api_key
            &&& config.upstreams[0].chat_kwargs == inputs.upstream_chat_kwargs
            &&& config.brave_base_url == inputs.brave_base_url
            &&& config.brave_max_results == inputs.brave_max_results
            &&& config.request_timeout_secs == inputs.request_timeout_secs
        }),
{
}

/// The Brave key in the emitted config is exactly the entered text, and there is none if
/// that is blank.
pub proof fn law_brave_key_stands_as_entered(existing: ConfigView, inputs: InputsView)
    ensures
        !crate::text::is_blank(inputs.brave_api_key) ==> crate::wizard::configured(
            existing,
            inputs,
        ).brave_api_key == Some(inputs.brave_api_key),
        crate::text::is_blank(inputs.brave_api_key) ==> crate::wizard::configured(
            existing,
            inputs,
        ).brave_api_key is None,
{
}

/// A secret means exactly the entered text, and nothing if that is blank.
pub proof fn law_secret_stands_as_entered(text: Seq<char>)
    ensures
        !crate::text::is_blank(text) ==> crate::wizard::entered_secret(text) == Some(text),
        crate::text::is_blank(text) ==> crate::wizard::entered_secret(text) is None,
{
}

/// The model and the log path stand in the emitted config without the whitespace around
/// them, and are not there if they are blank.
pub proof fn law_optional_texts_are_trimmed(existing: ConfigView, inputs: InputsView)
    ensures
        ({
            let config = crate::wizard::configured(existing, inputs);
            let model = config.model_profiles[0].1.upstream_model;
            let log_path = config.upstreams[0].request_log_path;
            &&& config.model_profiles.len() == 1
            &&& config.upstreams.len() == 1
            &&& model is None <==> crate::text::is_blank(inputs.upstream_model)
            &&& model is Some ==> model->Some_0 == crate::text::trimmed(inputs.upstream_model)
            &&& log_path is None <==> crate::text::is_blank(inputs.upstream_request_log_path)
            &&& log_path is Some ==> log_path->Some_0 == crate::text::trimmed(
                inputs.upstream_request_log_path,
            )
        }),
{
}

/// Settings that the emitted upstream and profile supersede are cleared, and the emitted
/// upstream and profile set nothing beyond the answers.
pub proof fn law_superseded_settings_are_cleared(existing: ConfigView, inputs: InputsView)
    ensures
        ({
            let config = crate::wizard::configured(existing, inputs);
            let upstream = config.upstreams[0];
            let profile = config.model_profiles[0].1;
            &&& config.upstream_base_url is None
            &&& config.upstream_api_key is None
            &&& config.upstream_model is None
            &&& config.upstream_request_log_path is None
            &&& config.fallback_upstreams is None
            &&& config.model_routes is None
            &&& config.image_agent_enabled is None
            &&& config.vision_url is None
            &&& config.vision_model is None
            &&& config.unsupported_image_policy is None
            &&& upstream.upstream_model is None
            &&& upstream.fallback_upstreams is None
            &&& profile.extends.len() == 0
            &&& profile.system_prompt_prefix is None
            &&& profile.upstream_chat_kwargs.len() == 0
            &&& profile.capabilities is None
            &&& profile.reasoning_effort is None
            &&& profile.roles is None
            &&& profile.image_analysis is None
            &&& profile.extra.len() == 0
        }),
{
}

/// The warning counts the upstreams and names them in their order, and does the same of
/// the profiles, in that order, each only if there is more than one.
pub proof fn law_warning_text(existing: ConfigView)
    ensures
        ({
            let names = existing.upstreams.map_values(
                |upstream: crate::config::UpstreamView| upstream.name,
            );
            let keys = existing.model_profiles.map_values(
                |keyed: (Seq<char>, crate::config::ProfileView)| keyed.0,
            );
            let upstreams = crate::text::decimal(existing.upstreams.len()) + " upstreams ("@
                + crate::text::joined(names, ", "@) + ")"@;
            let profiles = crate::text::decimal(existing.model_profiles.len()) + " profiles ("@
                + crate::text::joined(keys, ", "@) + ")"@;
            let start = "The existing config has "@;
            let end =
                " that will be collapsed into a single `default` upstream and a `\"*\"` profile if you continue."@;
            let warning = crate::wizard::collapse_warning(existing);
            let many_upstreams = existing.upstreams.len() > 1;
            let many_profiles = existing.model_profiles.len() > 1;
            &&& many_upstreams && many_profiles ==> warning == Some(
                start + (upstreams + " and "@ + profiles) + end,
            )
            &&& many_upstreams && !many_profiles ==> warning == Some(start + upstreams + end)
            &&& !many_upstreams && many_profiles ==> warning == Some(start + profiles + end)
            &&& !many_upstreams && !many_profiles ==> warning is None
        }),
{
    let names = existing.upstreams.map_values(
        |upstream: crate::config::UpstreamView| upstream.name,
    );
    let keys = existing.model_profiles.map_values(
        |keyed: (Seq<char>, crate::config::ProfileView)| keyed.0,
    );
    assert(names =~= crate::wizard::upstream_names(existing.upstreams));
    assert(keys =~= crate::wizard::profile_keys(existing.model_profiles));
    reveal_with_fuel(crate::text::joined, 3);
    let items = crate::wizard::dropped_items(existing);
    if existing.upstreams.len() > 1 && existing.model_profiles.len() > 1 {
        assert(items.drop_last() =~= seq![items[0]]);
    }
}

} // verus!

//! What holds of configs: what a fresh one says, what is found in one, and where its
//! catch-all profile leads.

use vstd::prelude::*;

use crate::config::{ConfigView, ProfileView, UpstreamView};

verus! {

/// The profile that sets nothing has no upstream, no model, no templates, no prefix, no
/// arguments and no rules.
pub proof fn law_empty_profile()
    ensures
        ({
            let profile = crate::config::empty_profile();
            &&& profile.upstream is None
            &&& profile.upstream_model is None
            &&& profile.extends.len() == 0
            &&& profile.system_prompt_prefix is None
            &&& profile.upstream_chat_kwargs.len() == 0
            &&& profile.capabilities is None
            &&& profile.reasoning_effort is None
            &&& profile.roles is None
            &&& profile.image_analysis is None
            &&& profile.extra.len() == 0
        }),
{
}

/// Without a file, the gateway listens on the local port 4000, forwards every model to a
/// local server without a key, searches Brave for five results in at most five rounds,
/// waits a minute, and sets nothing else.
pub proof fn law_fresh_config()
    ensures
        ({
            let config = crate::config::fresh_config();
            &&& config.bind_addr == "127.0.0.1:4000"@
            &&& config.upstreams.len() == 1
            &&& config.upstreams[0].name == "default"@
            &&& config.upstreams[0].url == "http://127.0.0.1:8000/v1"@
            &&& config.upstreams[0].api_key is None
            &&& config.upstreams[0].chat_kwargs.len() == 0
            &&& config.upstreams[0].request_log_path is None
            &&& config.upstreams[0].upstream_model is None
            &&& config.upstreams[0].fallback_upstreams is None
            &&& config.model_profiles.len() == 1
            &&& config.model_profiles[0].0 == "*"@
            &&& config.model_profiles[0].1 == (ProfileView {
                upstream: Some("default"@),
                ..crate::config::empty_profile()
            })
            &&& config.brave_base_url == "https://api.search.brave.com/res/v1"@
            &&& config.brave_max_results == 5
            &&& config.max_web_search_rounds == 5
            &&& config.request_timeout_secs == 60
            &&& config.upstream_base_url is None
            &&& config.upstream_api_key is None
            &&& config.upstream_model is None
            &&& config.system_prompt_prefix is None
            &&& config.upstream_request_log_path is None
            &&& config.turn_capture_dir is None
            &&& config.upstream_chat_kwargs.len() == 0
            &&& config.fallback_upstreams is None
            &&& config.upstream_failure_cooldown_secs is None
            &&& config.model_profile_templates.len() == 0
            &&& config.model_routes is None
            &&& config.template_family is None
            &&& config.brave_api_key is None
            &&& config.connect_timeout_secs is None
            &&& config.flatten_content is None
            &&& config.max_replay_entries is None
            &&& config.debug_log_max_age_hours is None
            &&& config.min_completion_tokens is None
            &&& config.max_sse_frame_bytes is None
            &&& config.max_request_body_bytes is None
            &&& config.image_agent_enabled is None
            &&& config.vision_url is None
            &&& config.vision_model is None
            &&& config.image_cache_max_size is None
            &&& config.image_cache_ttl_secs is None
            &&& config.unsupported_image_policy is None
            &&& config.price_table.len() == 0
        }),
{
}

/// The upstream found under a name is the one at the least index with that name.
pub proof fn law_first_upstream_of_name(upstreams: Seq<UpstreamView>, name: Seq<char>, i: int)
    requires
        0 <= i < upstreams.len(),
        upstreams[i].name == name,
        forall|k: int| 0 <= k < i ==> (#[trigger] upstreams[k]).name != name,
    ensures
        crate::config::upstream_named(upstreams, name) == Some(upstreams[i]),
    decreases i,
{
    if i > 0 {
        let rest = upstreams.drop_first();
        assert(upstreams[0].name != name);
        assert forall|k: int| 0 <= k < i - 1 implies (#[trigger] rest[k]).name != name by {
            assert(rest[k] == upstreams[k + 1]);
        }
        law_first_upstream_of_name(rest, name, i - 1);
    }
}

/// No upstream is found under a name that none has.
pub proof fn law_no_upstream_of_name(upstreams: Seq<UpstreamView>, name: Seq<char>)
    requires
        forall|k: int| 0 <= k < upstreams.len() ==> (#[trigger] upstreams[k]).name != name,
    ensures
        crate::config::upstream_named(upstreams, name) is None,
    decreases upstreams.len(),
{
    if upstreams.len() > 0 {
        let rest = upstreams.drop_first();
        assert(upstreams[0].name != name);
        assert forall|k: int| 0 <= k < rest.len() implies (#[trigger] rest[k]).name != name by {
            assert(rest[k] == upstreams[k + 1]);
        }
        law_no_upstream_of_name(rest, name);
    }
}

/// The profile found under a key is the one at the least index with that key.
pub proof fn law_first_profile_of_key(
    profiles: Seq<(Seq<char>, ProfileView)>,
    key: Seq<char>,
    i: int,
)
    requires
        0 <= i < profiles.len(),
        profiles[i].0 == key,
        forall|k: int| 0 <= k < i ==> (#[trigger] profiles[k]).0 != key,
    ensures
        crate::config::profile_keyed(profiles, key) == Some(profiles[i].1),
    decreases i,
{
    if i > 0 {
        let rest = profiles.drop_first();
        assert(profiles[0].0 != key);
        assert forall|k: int| 0 <= k < i - 1 implies (#[trigger] rest[k]).0 != key by {
            assert(rest[k] == profiles[k + 1]);
        }
        law_first_profile_of_key(rest, key, i - 1);
    }
}

/// No profile is found under a key that none has.
pub proof fn law_no_profile_of_key(profiles: Seq<(Seq<char>, ProfileView)>, key: Seq<char>)
    requires
        forall|k: int| 0 <= k < profiles.len() ==> (#[trigger] profiles[k]).0 != key,
    ensures
        crate::config::profile_keyed(profiles, key) is None,
    decreases profiles.len(),
{
    if profiles.len() > 0 {
        let rest = profiles.drop_first();
        assert(profiles[0].0 != key);
        assert forall|k: int| 0 <= k < rest.len() implies (#[trigger] rest[k]).0 != key by {
            assert(rest[k] == profiles[k + 1]);
        }
        law_no_profile_of_key(rest, key);
    }
}

/// The catch-all route follows the profile at the least index with the key `*`: to the
/// upstream that it names, if one has that name, served by the model that it sets, or
/// else by the requested one, unchanged. Without such a name there is no route.
pub proof fn law_catch_all_route(config: ConfigView, model: Seq<char>, i: int)
    requires
        0 <= i < config.model_profiles.len(),
        config.model_profiles[i].0 == "*"@,
        forall|k: int| 0 <= k < i ==> (#[trigger] config.model_profiles[k]).0 != "*"@,
    ensures
        ({
            let profile = config.model_profiles[i].1;
            let found = profile.upstream is Some && exists|k: int|
                0 <= k < config.upstreams.len() && (#[trigger] config.upstreams[k]).name
                    == profile.upstream->Some_0;
            let route = crate::config::catch_all_route(config, model);
            &&& route is Some <==> found
            &&& route matches Some(r) ==> r.upstream == profile.upstream->Some_0
            &&& route is Some && profile.upstream_model is Some ==> route->Some_0.served_model
                == profile.upstream_model->Some_0
            &&& route is Some && profile.upstream_model is None ==> route->Some_0.served_model
                == model
        }),
{
    law_first_profile_of_key(config.model_profiles, "*"@, i);
    let profile = config.model_profiles[i].1;
    if profile.upstream is Some {
        lemma_named_iff_present(config.upstreams, profile.upstream->Some_0);
    }
}

/// Without a profile keyed `*` there is no catch-all route.
pub proof fn law_no_catch_all_route(config: ConfigView, model: Seq<char>)
    requires
        forall|k: int|
            0 <= k < config.model_profiles.len() ==> (#[trigger] config.model_profiles[k]).0
                != "*"@,
    ensures
        crate::config::catch_all_route(config, model) is None,
{
    law_no_profile_of_key(config.model_profiles, "*"@);
}

proof fn lemma_named_iff_present(upstreams: Seq<UpstreamView>, name: Seq<char>)
    ensures
        crate::config::upstream_named(upstreams, name) is Some <==> exists|k: int|
            0 <= k < upstreams.len() && (#[trigger] upstreams[k]).name == name,
    decreases upstreams.len(),
{
    if upstreams.len() > 0 {
        let rest = upstreams.drop_first();
        lemma_named_iff_present(rest, name);
        if upstreams[0].name != name {
            if exists|k: int| 0 <= k < upstreams.len() && (#[trigger] upstreams[k]).name == name {
                let k = choose|k: int|
                    0 <= k < upstreams.len() && (#[trigger] upstreams[k]).name == name;
                assert(rest[k - 1] == upstreams[k]);
            }
            if exists|k: int| 0 <= k < rest.len() && (#[trigger] rest[k]).name == name {
                let k = choose|k: int| 0 <= k < rest.len() && (#[trigger] rest[k]).name == name;
                assert(rest[k] == upstreams[k + 1]);
            }
        }
    }
}

} // verus!

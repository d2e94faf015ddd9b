//! The configuration as it is kept in the config file.

use vstd::prelude::*;
use vstd::string::*;

use crate::json::{json_clone, json_clone_opt, json_new, JsonEntries, JsonMap};
use crate::text::{clone_opt, clone_strings};

verus! {

/// What becomes of an image that reaches a backend without vision support.
#[derive(Debug, Clone, Copy, PartialEq, Eq, Structural)]
pub enum ResidualImagePolicy {
    /// Replace the image by a text note.
    Placeholder,
    /// Fail the turn before it is dispatched.
    Reject,
}

/// An endpoint that chat completions are forwarded to.
#[derive(Debug)]
pub struct PersistedUpstream {
    pub name: String,
    pub url: String,
    pub api_key: Option<String>,
    pub chat_kwargs: JsonMap,
    pub request_log_path: Option<String>,
    pub upstream_model: Option<String>,
    pub fallback_upstreams: Option<Vec<JsonMap>>,
}

/// Settings for the models that a profile's key matches.
#[derive(Debug)]
pub struct PersistedModelProfile {
    /// Name of the upstream that serves the model.
    pub upstream: Option<String>,
    /// Model sent upstream in place of the requested one.
    pub upstream_model: Option<String>,
    /// Names of the templates that the profile builds on.
    pub extends: Vec<String>,
    pub system_prompt_prefix: Option<String>,
    pub upstream_chat_kwargs: JsonMap,
    pub capabilities: Option<JsonMap>,
    pub reasoning_effort: Option<JsonMap>,
    pub roles: Option<JsonMap>,
    pub image_analysis: Option<JsonMap>,
    /// Other keys of the profile, short for upstream chat kwargs.
    pub extra: JsonMap,
}

/// Model profiles by key, in the order of the file.
#[derive(Debug)]
pub struct OrderedModelProfiles(pub Vec<(String, PersistedModelProfile)>);

/// The config file. A setting that is `None` is not in the file.
#[derive(Debug)]
pub struct PersistedConfig {
    pub bind_addr: String,
    pub upstream_base_url: Option<String>,
    pub upstream_api_key: Option<String>,
    pub upstream_model: Option<String>,
    pub system_prompt_prefix: Option<String>,
    pub upstream_request_log_path: Option<String>,
    pub turn_capture_dir: Option<String>,
    pub upstream_chat_kwargs: JsonMap,
    pub upstreams: Vec<PersistedUpstream>,
    pub fallback_upstreams: Option<Vec<JsonMap>>,
    pub upstream_failure_cooldown_secs: Option<u64>,
    pub model_profile_templates: OrderedModelProfiles,
    pub model_profiles: OrderedModelProfiles,
    pub model_routes: Option<JsonMap>,
    pub template_family: Option<String>,
    pub brave_base_url: String,
    pub brave_api_key: Option<String>,
    pub brave_max_results: usize,
    pub request_timeout_secs: u64,
    pub connect_timeout_secs: Option<u64>,
    pub max_web_search_rounds: usize,
    pub flatten_content: Option<bool>,
    pub max_replay_entries: Option<usize>,
    pub debug_log_max_age_hours: Option<u64>,
    pub min_completion_tokens: Option<u64>,
    pub max_sse_frame_bytes: Option<usize>,
    pub max_request_body_bytes: Option<usize>,
    pub image_agent_enabled: Option<bool>,
    pub vision_url: Option<String>,
    pub vision_model: Option<String>,
    pub image_cache_max_size: Option<usize>,
    pub image_cache_ttl_secs: Option<u64>,
    pub unsupported_image_policy: Option<ResidualImagePolicy>,
    /// Prices by model.
    pub price_table: JsonMap,
}

/// The upstream and the model that serve a request.
#[derive(Debug)]
pub struct Route {
    pub profile: RouteProfile,
    /// Model named in the request that is sent upstream.
    pub served_model: String,
}

/// The profile behind a route.
#[derive(Debug)]
pub struct RouteProfile {
    /// Name of the upstream.
    pub upstream: String,
}

/// The view of a list of JSON objects.
pub open spec fn objects_view(v: Seq<JsonMap>) -> Seq<JsonEntries> {
    Seq::new(v.len(), |i: int| crate::json::json_entries(v[i]))
}

/// The view of an optional list of JSON objects.
pub open spec fn opt_objects_view(o: Option<Vec<JsonMap>>) -> Option<Seq<JsonEntries>> {
    match o {
        Some(v) => Some(objects_view(v@)),
        None => None,
    }
}

/// An upstream, mathematically.
#[verifier::ext_equal]
pub struct UpstreamView {
    pub name: Seq<char>,
    pub url: Seq<char>,
    pub api_key: Option<Seq<char>>,
    pub chat_kwargs: JsonEntries,
    pub request_log_path: Option<Seq<char>>,
    pub upstream_model: Option<Seq<char>>,
    pub fallback_upstreams: Option<Seq<JsonEntries>>,
}

impl View for PersistedUpstream {
    type V = UpstreamView;

    open spec fn view(&self) -> UpstreamView {
        UpstreamView {
            name: self.name@,
            url: self.url@,
            api_key: crate::text::opt_view(self.api_key),
            chat_kwargs: crate::json::json_entries(self.chat_kwargs),
            request_log_path: crate::text::opt_view(self.request_log_path),
            upstream_model: crate::text::opt_view(self.upstream_model),
            fallback_upstreams: opt_objects_view(self.fallback_upstreams),
        }
    }
}

/// A model profile, mathematically.
#[verifier::ext_equal]
pub struct ProfileView {
    pub upstream: Option<Seq<char>>,
    pub upstream_model: Option<Seq<char>>,
    pub extends: Seq<Seq<char>>,
    pub system_prompt_prefix: Option<Seq<char>>,
    pub upstream_chat_kwargs: JsonEntries,
    pub capabilities: Option<JsonEntries>,
    pub reasoning_effort: Option<JsonEntries>,
    pub roles: Option<JsonEntries>,
    pub image_analysis: Option<JsonEntries>,
    pub extra: JsonEntries,
}

impl View for PersistedModelProfile {
    type V = ProfileView;

    open spec fn view(&self) -> ProfileView {
        ProfileView {
            upstream: crate::text::opt_view(self.upstream),
            upstream_model: crate::text::opt_view(self.upstream_model),
            extends: crate::text::string_views(self.extends@),
            system_prompt_prefix: crate::text::opt_view(self.system_prompt_prefix),
            upstream_chat_kwargs: crate::json::json_entries(self.upstream_chat_kwargs),
            capabilities: crate::json::opt_entries(self.capabilities),
            reasoning_effort: crate::json::opt_entries(self.reasoning_effort),
            roles: crate::json::opt_entries(self.roles),
            image_analysis: crate::json::opt_entries(self.image_analysis),
            extra: crate::json::json_entries(self.extra),
        }
    }
}

/// The profile that sets nothing.
pub open spec fn empty_profile() -> ProfileView {
    ProfileView {
        upstream: None,
        upstream_model: None,
        extends: Seq::empty(),
        system_prompt_prefix: None,
        upstream_chat_kwargs: Seq::empty(),
        capabilities: None,
        reasoning_effort: None,
        roles: None,
        image_analysis: None,
        extra: Seq::empty(),
    }
}

/// The view of a list of upstreams.
pub open spec fn upstreams_view(v: Seq<PersistedUpstream>) -> Seq<UpstreamView> {
    Seq::new(v.len(), |i: int| v[i]@)
}

/// The view of a list of keyed profiles.
pub open spec fn profiles_view(v: Seq<(String, PersistedModelProfile)>) -> Seq<
    (Seq<char>, ProfileView),
> {
    Seq::new(v.len(), |i: int| (v[i].0@, v[i].1@))
}

impl View for OrderedModelProfiles {
    type V = Seq<(Seq<char>, ProfileView)>;

    open spec fn view(&self) -> Seq<(Seq<char>, ProfileView)> {
        profiles_view(self.0@)
    }
}

/// The config file, mathematically.
#[verifier::ext_equal]
pub struct ConfigView {
    pub bind_addr: Seq<char>,
    pub upstream_base_url: Option<Seq<char>>,
    pub upstream_api_key: Option<Seq<char>>,
    pub upstream_model: Option<Seq<char>>,
    pub system_prompt_prefix: Option<Seq<char>>,
    pub upstream_request_log_path: Option<Seq<char>>,
    pub turn_capture_dir: Option<Seq<char>>,
    pub upstream_chat_kwargs: JsonEntries,
    pub upstreams: Seq<UpstreamView>,
    pub fallback_upstreams: Option<Seq<JsonEntries>>,
    pub upstream_failure_cooldown_secs: Option<u64>,
    pub model_profile_templates: Seq<(Seq<char>, ProfileView)>,
    pub model_profiles: Seq<(Seq<char>, ProfileView)>,
    pub model_routes: Option<JsonEntries>,
    pub template_family: Option<Seq<char>>,
    pub brave_base_url: Seq<char>,
    pub brave_api_key: Option<Seq<char>>,
    pub brave_max_results: usize,
    pub request_timeout_secs: u64,
    pub connect_timeout_secs: Option<u64>,
    pub max_web_search_rounds: usize,
    pub flatten_content: Option<bool>,
    pub max_replay_entries: Option<usize>,
    pub debug_log_max_age_hours: Option<u64>,
    pub min_completion_tokens: Option<u64>,
    pub max_sse_frame_bytes: Option<usize>,
    pub max_request_body_bytes: Option<usize>,
    pub image_agent_enabled: Option<bool>,
    pub vision_url: Option<Seq<char>>,
    pub vision_model: Option<Seq<char>>,
    pub image_cache_max_size: Option<usize>,
    pub image_cache_ttl_secs: Option<u64>,
    pub unsupported_image_policy: Option<ResidualImagePolicy>,
    pub price_table: JsonEntries,
}

impl View for PersistedConfig {
    type V = ConfigView;

    open spec fn view(&self) -> ConfigView {
        ConfigView {
            bind_addr: self.bind_addr@,
            upstream_base_url: crate::text::opt_view(self.upstream_base_url),
            upstream_api_key: crate::text::opt_view(self.upstream_api_key),
            upstream_model: crate::text::opt_view(self.upstream_model),
            system_prompt_prefix: crate::text::opt_view(self.system_prompt_prefix),
            upstream_request_log_path: crate::text::opt_view(self.upstream_request_log_path),
            turn_capture_dir: crate::text::opt_view(self.turn_capture_dir),
            upstream_chat_kwargs: crate::json::json_entries(self.upstream_chat_kwargs),
            upstreams: upstreams_view(self.upstreams@),
            fallback_upstreams: opt_objects_view(self.fallback_upstreams),
            upstream_failure_cooldown_secs: self.upstream_failure_cooldown_secs,
            model_profile_templates: self.model_profile_templates@,
            model_profiles: self.model_profiles@,
            model_routes: crate::json::opt_entries(self.model_routes),
            template_family: crate::text::opt_view(self.template_family),
            brave_base_url: self.brave_base_url@,
            brave_api_key: crate::text::opt_view(self.brave_api_key),
            brave_max_results: self.brave_max_results,
            request_timeout_secs: self.request_timeout_secs,
            connect_timeout_secs: self.connect_timeout_secs,
            max_web_search_rounds: self.max_web_search_rounds,
            flatten_content: self.flatten_content,
            max_replay_entries: self.max_replay_entries,
            debug_log_max_age_hours: self.debug_log_max_age_hours,
            min_completion_tokens: self.min_completion_tokens,
            max_sse_frame_bytes: self.max_sse_frame_bytes,
            max_request_body_bytes: self.max_request_body_bytes,
            image_agent_enabled: self.image_agent_enabled,
            vision_url: crate::text::opt_view(self.vision_url),
            vision_model: crate::text::opt_view(self.vision_model),
            image_cache_max_size: self.image_cache_max_size,
            image_cache_ttl_secs: self.image_cache_ttl_secs,
            unsupported_image_policy: self.unsupported_image_policy,
            price_table: crate::json::json_entries(self.price_table),
        }
    }
}

/// The upstream that a fresh config forwards to.
pub open spec fn fresh_upstream() -> UpstreamView {
    UpstreamView {
        name: "default"@,
        url: "http://127.0.0.1:8000/v1"@,
        api_key: None,
        chat_kwargs: Seq::empty(),
        request_log_path: None,
        upstream_model: None,
        fallback_upstreams: None,
    }
}

/// The profile that a fresh config has for every model.
pub open spec fn fresh_profile() -> ProfileView {
    ProfileView { upstream: Some("default"@), ..empty_profile() }
}

/// The config in the absence of a file: one upstream, and one profile that sends
/// every model to it.
pub open spec fn fresh_config() -> ConfigView {
    ConfigView {
        bind_addr: "127.0.0.1:4000"@,
        upstream_base_url: None,
        upstream_api_key: None,
        upstream_model: None,
        system_prompt_prefix: None,
        upstream_request_log_path: None,
        turn_capture_dir: None,
        upstream_chat_kwargs: Seq::empty(),
        upstreams: seq![fresh_upstream()],
        fallback_upstreams: None,
        upstream_failure_cooldown_secs: None,
        model_profile_templates: Seq::empty(),
        model_profiles: seq![("*"@, fresh_profile())],
        model_routes: None,
        template_family: None,
        brave_base_url: "https://api.search.brave.com/res/v1"@,
        brave_api_key: None,
        brave_max_results: 5,
        request_timeout_secs: 60,
        connect_timeout_secs: None,
        max_web_search_rounds: 5,
        flatten_content: None,
        max_replay_entries: None,
        debug_log_max_age_hours: None,
        min_completion_tokens: None,
        max_sse_frame_bytes: None,
        max_request_body_bytes: None,
        image_agent_enabled: None,
        vision_url: None,
        vision_model: None,
        image_cache_max_size: None,
        image_cache_ttl_secs: None,
        unsupported_image_policy: None,
        price_table: Seq::empty(),
    }
}

/// The first upstream of that name.
pub open spec fn upstream_named(upstreams: Seq<UpstreamView>, name: Seq<char>) -> Option<
    UpstreamView,
>
    decreases upstreams.len(),
{
    if upstreams.len() == 0 {
        None
    } else if upstreams[0].name == name {
        Some(upstreams[0])
    } else {
        upstream_named(upstreams.drop_first(), name)
    }
}

/// The first profile under that key.
pub open spec fn profile_keyed(
    profiles: Seq<(Seq<char>, ProfileView)>,
    key: Seq<char>,
) -> Option<ProfileView>
    decreases profiles.len(),
{
    if profiles.len() == 0 {
        None
    } else if profiles[0].0 == key {
        Some(profiles[0].1)
    } else {
        profile_keyed(profiles.drop_first(), key)
    }
}

/// A route, mathematically.
pub struct RouteView {
    pub upstream: Seq<char>,
    pub served_model: Seq<char>,
}

impl View for Route {
    type V = RouteView;

    open spec fn view(&self) -> RouteView {
        RouteView { upstream: self.profile.upstream@, served_model: self.served_model@ }
    }
}

/// The view of an optional route.
pub open spec fn opt_route(o: Option<Route>) -> Option<RouteView> {
    match o {
        Some(route) => Some(route@),
        None => None,
    }
}

/// The route of a model that no profile but the catch-all `*` matches: the
/// upstream that `*` points at, and the model that `*` sets, or else the
/// requested one. There is none if `*` does not point at a configured upstream.
/// This is the catch-all profile's route alone; an `upstream_model` that the upstream
/// itself sets is left aside.
pub open spec fn catch_all_route(config: ConfigView, model: Seq<char>) -> Option<RouteView> {
    match profile_keyed(config.model_profiles, "*"@) {
        Some(profile) => match profile.upstream {
            Some(upstream) => if upstream_named(config.upstreams, upstream) is Some {
                Some(
                    RouteView {
                        upstream,
                        served_model: match profile.upstream_model {
                            Some(served) => served,
                            None => model,
                        },
                    },
                )
            } else {
                None
            },
            None => None,
        },
        None => None,
    }
}

/// The first upstream of that name.
pub fn find_upstream<'a>(upstreams: &'a Vec<PersistedUpstream>, name: &String) -> (r: Option<
    &'a PersistedUpstream,
>)
    ensures
        match r {
            Some(upstream) => upstream_named(upstreams_view(upstreams@), name@) == Some(upstream@),
            None => upstream_named(upstreams_view(upstreams@), name@) is None,
        },
{
    let ghost all = upstreams_view(upstreams@);
    assert(all.skip(0) =~= all);
    for i in 0..upstreams.len()
        invariant
            all == upstreams_view(upstreams@),
            upstream_named(all, name@) == upstream_named(all.skip(i as int), name@),
    {
        assert(all.skip(i as int)[0] == upstreams[i as int]@);
        assert(all.skip(i as int).drop_first() =~= all.skip(i + 1));
        if upstreams[i].name == *name {
            return Some(&upstreams[i]);
        }
    }
    None
}

/// The first profile under that key.
pub fn find_profile<'a>(profiles: &'a OrderedModelProfiles, key: &String) -> (r: Option<
    &'a PersistedModelProfile,
>)
    ensures
        match r {
            Some(profile) => profile_keyed(profiles@, key@) == Some(profile@),
            None => profile_keyed(profiles@, key@) is None,
        },
{
    let ghost all = profiles@;
    assert(all.skip(0) =~= all);
    for i in 0..profiles.0.len()
        invariant
            all == profiles@,
            profile_keyed(all, key@) == profile_keyed(all.skip(i as int), key@),
    {
        assert(all.skip(i as int)[0] == (profiles.0[i as int].0@, profiles.0[i as int].1@));
        assert(all.skip(i as int).drop_first() =~= all.skip(i + 1));
        if profiles.0[i].0 == *key {
            return Some(&profiles.0[i].1);
        }
    }
    None
}

impl PersistedConfig {
    /// The route of a model that no profile but the catch-all `*` matches. This is the
    /// catch-all profile's route alone; an `upstream_model` that the upstream itself sets
    /// is left aside.
    pub fn catch_all_route(&self, model: &str) -> (r: Option<Route>)
        ensures
            opt_route(r) == catch_all_route(self@, model@),
    {
        let profile = match find_profile(&self.model_profiles, &"*".to_owned()) {
            Some(profile) => profile,
            None => {
                return None;
            },
        };
        let upstream = match &profile.upstream {
            Some(upstream) => upstream.clone(),
            None => {
                return None;
            },
        };
        match find_upstream(&self.upstreams, &upstream) {
            Some(_) => {},
            None => {
                return None;
            },
        }
        let served_model = match &profile.upstream_model {
            Some(served) => served.clone(),
            None => model.to_owned(),
        };
        Some(Route { profile: RouteProfile { upstream }, served_model })
    }
}

impl Default for PersistedModelProfile {
    fn default() -> (r: Self)
        ensures
            r@ == empty_profile(),
    {
        let r = PersistedModelProfile {
            upstream: None,
            upstream_model: None,
            extends: Vec::new(),
            system_prompt_prefix: None,
            upstream_chat_kwargs: json_new(),
            capabilities: None,
            reasoning_effort: None,
            roles: None,
            image_analysis: None,
            extra: json_new(),
        };
        assert(r@ =~= empty_profile());
        r
    }
}

impl Default for PersistedConfig {
    fn default() -> (r: Self)
        ensures
            r@ == fresh_config(),
    {
        let upstream = PersistedUpstream {
            name: "default".to_owned(),
            url: "http://127.0.0.1:8000/v1".to_owned(),
            api_key: None,
            chat_kwargs: json_new(),
            request_log_path: None,
            upstream_model: None,
            fallback_upstreams: None,
        };
        let profile = PersistedModelProfile {
            upstream: Some("default".to_owned()),
            ..PersistedModelProfile::default()
        };
        let r = PersistedConfig {
            bind_addr: "127.0.0.1:4000".to_owned(),
            upstream_base_url: None,
            upstream_api_key: None,
            upstream_model: None,
            system_prompt_prefix: None,
            upstream_request_log_path: None,
            turn_capture_dir: None,
            upstream_chat_kwargs: json_new(),
            upstreams: vec![upstream],
            fallback_upstreams: None,
            upstream_failure_cooldown_secs: None,
            model_profile_templates: OrderedModelProfiles(Vec::new()),
            model_profiles: OrderedModelProfiles(vec![("*".to_owned(), profile)]),
            model_routes: None,
            template_family: None,
            brave_base_url: "https://api.search.brave.com/res/v1".to_owned(),
            brave_api_key: None,
            brave_max_results: 5,
            request_timeout_secs: 60,
            connect_timeout_secs: None,
            max_web_search_rounds: 5,
            flatten_content: None,
            max_replay_entries: None,
            debug_log_max_age_hours: None,
            min_completion_tokens: None,
            max_sse_frame_bytes: None,
            max_request_body_bytes: None,
            image_agent_enabled: None,
            vision_url: None,
            vision_model: None,
            image_cache_max_size: None,
            image_cache_ttl_secs: None,
            unsupported_image_policy: None,
            price_table: json_new(),
        };
        proof {
            assert(r@.upstreams =~= fresh_config().upstreams);
            assert(r@.model_profiles =~= fresh_config().model_profiles);
            assert(r@ =~= fresh_config());
        }
        r
    }
}

impl Clone for PersistedModelProfile {
    fn clone(&self) -> (r: Self)
        ensures
            r@ == self@,
    {
        let r = PersistedModelProfile {
            upstream: clone_opt(&self.upstream),
            upstream_model: clone_opt(&self.upstream_model),
            extends: clone_strings(&self.extends),
            system_prompt_prefix: clone_opt(&self.system_prompt_prefix),
            upstream_chat_kwargs: json_clone(&self.upstream_chat_kwargs),
            capabilities: json_clone_opt(&self.capabilities),
            reasoning_effort: json_clone_opt(&self.reasoning_effort),
            roles: json_clone_opt(&self.roles),
            image_analysis: json_clone_opt(&self.image_analysis),
            extra: json_clone(&self.extra),
        };
        assert(r@ =~= self@);
        r
    }
}

impl Clone for OrderedModelProfiles {
    fn clone(&self) -> (r: Self)
        ensures
            r@ == self@,
    {
        let mut v: Vec<(String, PersistedModelProfile)> = Vec::new();
        for i in 0..self.0.len()
            invariant
                v.len() == i,
                forall|j: int|
                    0 <= j < i ==> (#[trigger] v[j]).0@ == self.0[j].0@ && v[j].1@ == self.0[j].1@,
        {
            v.push((self.0[i].0.clone(), self.0[i].1.clone()));
        }
        assert(profiles_view(v@) =~= self@);
        OrderedModelProfiles(v)
    }
}

} // verus!

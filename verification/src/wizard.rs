//! What the configuration wizard proposes, and what it makes of the answers.

use vstd::prelude::*;
use vstd::string::*;

use crate::config::{
    find_profile, find_upstream, ConfigView, OrderedModelProfiles, PersistedConfig,
    PersistedModelProfile, PersistedUpstream, ProfileView, UpstreamView,
};
use crate::json::{
    json_clone, json_encode, json_is_empty, json_new, json_parse, JsonEntries, JsonMap,
};
use crate::text::{
    clone_opt, decimal_text, followed_by, non_blank_text, text_is_blank, unless_blank,
};

verus! {

/// Values gathered from the prompts of the wizard.
#[derive(Debug)]
pub struct ConfigureFlowInputs {
    pub bind_addr: String,
    pub upstream_base_url: String,
    pub upstream_api_key: Option<String>,
    /// Raw prompt text; blank means that the requested model is passed through.
    pub upstream_model: String,
    /// Raw prompt text; blank means that requests are not logged.
    pub upstream_request_log_path: String,
    pub upstream_chat_kwargs: JsonMap,
    pub brave_base_url: String,
    /// Raw prompt text; blank means no key.
    pub brave_api_key: String,
    pub brave_max_results: usize,
    pub request_timeout_secs: u64,
}

/// The gathered values, mathematically.
#[verifier::ext_equal]
pub struct InputsView {
    pub bind_addr: Seq<char>,
    pub upstream_base_url: Seq<char>,
    pub upstream_api_key: Option<Seq<char>>,
    pub upstream_model: Seq<char>,
    pub upstream_request_log_path: Seq<char>,
    pub upstream_chat_kwargs: JsonEntries,
    pub brave_base_url: Seq<char>,
    pub brave_api_key: Seq<char>,
    pub brave_max_results: usize,
    pub request_timeout_secs: u64,
}

impl View for ConfigureFlowInputs {
    type V = InputsView;

    open spec fn view(&self) -> InputsView {
        InputsView {
            bind_addr: self.bind_addr@,
            upstream_base_url: self.upstream_base_url@,
            upstream_api_key: crate::text::opt_view(self.upstream_api_key),
            upstream_model: self.upstream_model@,
            upstream_request_log_path: self.upstream_request_log_path@,
            upstream_chat_kwargs: crate::json::json_entries(self.upstream_chat_kwargs),
            brave_base_url: self.brave_base_url@,
            brave_api_key: self.brave_api_key@,
            brave_max_results: self.brave_max_results,
            request_timeout_secs: self.request_timeout_secs,
        }
    }
}

/// A secret as it was entered, or nothing if the entry is blank.
pub open spec fn entered_secret(s: Seq<char>) -> Option<Seq<char>> {
    if crate::text::is_blank(s) {
        None
    } else {
        Some(s)
    }
}

/// The upstream that the wizard emits.
pub open spec fn configured_upstream(inputs: InputsView) -> UpstreamView {
    UpstreamView {
        name: "default"@,
        url: inputs.upstream_base_url,
        api_key: inputs.upstream_api_key,
        chat_kwargs: inputs.upstream_chat_kwargs,
        request_log_path: crate::text::non_blank(inputs.upstream_request_log_path),
        upstream_model: None,
        fallback_upstreams: None,
    }
}

/// The catch-all profile that the wizard emits.
pub open spec fn configured_profile(inputs: InputsView) -> ProfileView {
    ProfileView {
        upstream: Some("default"@),
        upstream_model: crate::text::non_blank(inputs.upstream_model),
        ..crate::config::empty_profile()
    }
}

/// The config that the wizard emits: `existing` with the prompted settings
/// replaced by the answers, the upstreams and profiles replaced by a single
/// upstream and a single profile, and the settings that these supersede cleared.
pub open spec fn configured(existing: ConfigView, inputs: InputsView) -> ConfigView {
    ConfigView {
        bind_addr: inputs.bind_addr,
        upstream_base_url: None,
        upstream_api_key: None,
        upstream_model: None,
        upstream_request_log_path: None,
        upstreams: seq![configured_upstream(inputs)],
        fallback_upstreams: None,
        model_profiles: seq![("*"@, configured_profile(inputs))],
        model_routes: None,
        brave_base_url: inputs.brave_base_url,
        brave_api_key: entered_secret(inputs.brave_api_key),
        brave_max_results: inputs.brave_max_results,
        request_timeout_secs: inputs.request_timeout_secs,
        image_agent_enabled: None,
        vision_url: None,
        vision_model: None,
        unsupported_image_policy: None,
        ..existing
    }
}

/// Builds the emitted config from the prompt inputs and from what was not prompted
/// for: a single `default` upstream and a `"*"` catch-all profile that points at it,
/// with `upstream_model` set only if a default model was entered.
pub fn build_configured_persisted_config(
    existing: &PersistedConfig,
    inputs: ConfigureFlowInputs,
) -> (r: PersistedConfig)
    ensures
        r@ == configured(existing@, inputs@),
{
    let default_upstream = PersistedUpstream {
        name: "default".to_owned(),
        url: inputs.upstream_base_url,
        api_key: inputs.upstream_api_key,
        chat_kwargs: inputs.upstream_chat_kwargs,
        request_log_path: non_blank_text(inputs.upstream_request_log_path.as_str()),
        upstream_model: None,
        fallback_upstreams: None,
    };
    let default_profile = PersistedModelProfile {
        upstream: Some("default".to_owned()),
        upstream_model: non_blank_text(inputs.upstream_model.as_str()),
        ..PersistedModelProfile::default()
    };
    let r = PersistedConfig {
        bind_addr: inputs.bind_addr,
        upstream_base_url: None,
        upstream_api_key: None,
        upstream_model: None,
        system_prompt_prefix: clone_opt(&existing.system_prompt_prefix),
        upstream_request_log_path: None,
        turn_capture_dir: clone_opt(&existing.turn_capture_dir),
        upstream_chat_kwargs: json_clone(&existing.upstream_chat_kwargs),
        upstreams: vec![default_upstream],
        fallback_upstreams: None,
        upstream_failure_cooldown_secs: existing.upstream_failure_cooldown_secs,
        model_profile_templates: existing.model_profile_templates.clone(),
        model_profiles: OrderedModelProfiles(vec![("*".to_owned(), default_profile)]),
        model_routes: None,
        template_family: clone_opt(&existing.template_family),
        brave_base_url: inputs.brave_base_url,
        brave_api_key: unless_blank(inputs.brave_api_key),
        brave_max_results: inputs.brave_max_results,
        request_timeout_secs: inputs.request_timeout_secs,
        connect_timeout_secs: existing.connect_timeout_secs,
        max_web_search_rounds: existing.max_web_search_rounds,
        flatten_content: existing.flatten_content,
        max_replay_entries: existing.max_replay_entries,
        debug_log_max_age_hours: existing.debug_log_max_age_hours,
        min_completion_tokens: existing.min_completion_tokens,
        max_sse_frame_bytes: existing.max_sse_frame_bytes,
        max_request_body_bytes: existing.max_request_body_bytes,
        image_agent_enabled: None,
        vision_url: None,
        vision_model: None,
        image_cache_max_size: existing.image_cache_max_size,
        image_cache_ttl_secs: existing.image_cache_ttl_secs,
        unsupported_image_policy: None,
        price_table: json_clone(&existing.price_table),
    };
    proof {
        let c = configured(existing@, inputs@);
        assert(r@.upstreams =~= c.upstreams);
        assert(r@.model_profiles =~= c.model_profiles);
        assert(r@ =~= c);
    }
    r
}

/// The names of upstreams.
pub open spec fn upstream_names(upstreams: Seq<UpstreamView>) -> Seq<Seq<char>> {
    Seq::new(upstreams.len(), |i: int| upstreams[i].name)
}

/// The keys of profiles.
pub open spec fn profile_keys(profiles: Seq<(Seq<char>, ProfileView)>) -> Seq<Seq<char>> {
    Seq::new(profiles.len(), |i: int| profiles[i].0)
}

/// A count, what is counted, and the names in brackets: `2 upstreams (a, b)`.
pub open spec fn counted(names: Seq<Seq<char>>, what: Seq<char>) -> Seq<char> {
    crate::text::decimal(names.len()) + what + crate::text::joined(names, ", "@) + ")"@
}

/// What the wizard would drop, item by item.
pub open spec fn dropped_items(existing: ConfigView) -> Seq<Seq<char>> {
    let upstreams = if existing.upstreams.len() > 1 {
        seq![counted(upstream_names(existing.upstreams), " upstreams ("@)]
    } else {
        Seq::empty()
    };
    let profiles = if existing.model_profiles.len() > 1 {
        seq![counted(profile_keys(existing.model_profiles), " profiles ("@)]
    } else {
        Seq::empty()
    };
    upstreams + profiles
}

/// The warning shown before an existing config is flattened, if it is to lose an
/// upstream or a profile.
pub open spec fn collapse_warning(existing: ConfigView) -> Option<Seq<char>> {
    if existing.upstreams.len() <= 1 && existing.model_profiles.len() <= 1 {
        None
    } else {
        Some(
            "The existing config has "@ + crate::text::joined(dropped_items(existing), " and "@)
                + " that will be collapsed into a single `default` upstream and a `\"*\"` profile if you continue."@,
        )
    }
}

/// The names of the upstreams in a text, with commas between them.
fn upstream_list(upstreams: &Vec<PersistedUpstream>) -> (r: String)
    ensures
        r@ == crate::text::joined(
            upstream_names(crate::config::upstreams_view(upstreams@)),
            ", "@,
        ),
{
    let ghost names = upstream_names(crate::config::upstreams_view(upstreams@));
    let mut r = String::new();
    for i in 0..upstreams.len()
        invariant
            names == upstream_names(crate::config::upstreams_view(upstreams@)),
            r@ == crate::text::joined(names.take(i as int), ", "@),
    {
        assert(names.take(i + 1).drop_last() =~= names.take(i as int));
        if i > 0 {
            r.append(", ");
        }
        r.append(upstreams[i].name.as_str());
        assert(r@ =~= crate::text::joined(names.take(i + 1), ", "@));
    }
    assert(names.take(upstreams.len() as int) =~= names);
    r
}

/// The keys of the profiles in a text, with commas between them.
fn profile_list(profiles: &OrderedModelProfiles) -> (r: String)
    ensures
        r@ == crate::text::joined(profile_keys(profiles@), ", "@),
{
    let ghost keys = profile_keys(profiles@);
    let mut r = String::new();
    for i in 0..profiles.0.len()
        invariant
            keys == profile_keys(profiles@),
            r@ == crate::text::joined(keys.take(i as int), ", "@),
    {
        assert(keys.take(i + 1).drop_last() =~= keys.take(i as int));
        if i > 0 {
            r.append(", ");
        }
        r.append(profiles.0[i].0.as_str());
        assert(r@ =~= crate::text::joined(keys.take(i + 1), ", "@));
    }
    assert(keys.take(profiles.0.len() as int) =~= keys);
    r
}

/// Warns before the wizard flattens an existing config: the wizard always emits
/// exactly one upstream and one profile, so a config with more of either would
/// otherwise lose the rest silently.
pub fn configure_collapse_warning(existing: &PersistedConfig) -> (r: Option<String>)
    ensures
        crate::text::opt_view(r) == collapse_warning(existing@),
{
    let many_upstreams = existing.upstreams.len() > 1;
    let many_profiles = existing.model_profiles.0.len() > 1;
    if !many_upstreams && !many_profiles {
        return None;
    }
    let mut r = "The existing config has ".to_owned();
    let ghost head = r@;
    if many_upstreams {
        r.append(decimal_text(existing.upstreams.len()).as_str());
        r.append(" upstreams (");
        r.append(upstream_list(&existing.upstreams).as_str());
        r.append(")");
    }
    if many_upstreams && many_profiles {
        r.append(" and ");
    }
    if many_profiles {
        r.append(decimal_text(existing.model_profiles.0.len()).as_str());
        r.append(" profiles (");
        r.append(profile_list(&existing.model_profiles).as_str());
        r.append(")");
    }
    proof {
        let items = dropped_items(existing@);
        reveal_with_fuel(crate::text::joined, 3);
        assert(r@ =~= head + crate::text::joined(items, " and "@)) by {
            if many_upstreams && many_profiles {
                assert(items.drop_last() =~= seq![items[0]]);
            }
        }
    }
    r.append(
        " that will be collapsed into a single `default` upstream and a `\"*\"` profile if you continue.",
    );
    Some(r)
}

/// The upstream whose settings the wizard proposes: the one named `default`, else
/// the first.
pub open spec fn proposed_upstream(existing: ConfigView) -> Option<UpstreamView> {
    match crate::config::upstream_named(existing.upstreams, "default"@) {
        Some(upstream) => Some(upstream),
        None => if existing.upstreams.len() > 0 {
            Some(existing.upstreams[0])
        } else {
            None
        },
    }
}

/// The proposed base URL.
pub open spec fn proposed_url(existing: ConfigView) -> Seq<char> {
    match proposed_upstream(existing) {
        Some(upstream) => upstream.url,
        None => "http://127.0.0.1:8000/v1"@,
    }
}

/// The API key that may be kept.
pub open spec fn proposed_api_key(existing: ConfigView) -> Option<Seq<char>> {
    match proposed_upstream(existing) {
        Some(upstream) => upstream.api_key,
        None => None,
    }
}

/// The proposed model: that of the catch-all profile, or nothing.
pub open spec fn proposed_model(existing: ConfigView) -> Seq<char> {
    match crate::config::profile_keyed(existing.model_profiles, "*"@) {
        Some(profile) => match profile.upstream_model {
            Some(model) => model,
            None => Seq::empty(),
        },
        None => Seq::empty(),
    }
}

/// The proposed log path: that of the upstream, else the one of the whole config,
/// else nothing.
pub open spec fn proposed_log_path(existing: ConfigView) -> Seq<char> {
    let own = match proposed_upstream(existing) {
        Some(upstream) => upstream.request_log_path,
        None => None,
    };
    match (own, existing.upstream_request_log_path) {
        (Some(path), _) => path,
        (None, Some(path)) => path,
        (None, None) => Seq::empty(),
    }
}

/// The chat kwargs that are proposed.
pub open spec fn proposed_chat_kwargs(existing: ConfigView) -> JsonEntries {
    match proposed_upstream(existing) {
        Some(upstream) => upstream.chat_kwargs,
        None => Seq::empty(),
    }
}

/// What comes of encoding the chat kwargs: the text, or a message that says what
/// failed.
pub open spec fn encoding_outcome(encoded: Result<Seq<char>, Seq<char>>) -> Result<
    Seq<char>,
    Seq<char>,
> {
    match encoded {
        Ok(text) => Ok(text),
        Err(message) => Err("failed to encode upstream chat kwargs: "@ + message),
    }
}

/// The text that the prompt for the chat kwargs is filled with: nothing if there are
/// none, else their JSON text.
pub open spec fn proposed_chat_kwargs_text(existing: ConfigView) -> Result<Seq<char>, Seq<char>> {
    let entries = proposed_chat_kwargs(existing);
    if entries.len() == 0 {
        Ok(Seq::empty())
    } else {
        encoding_outcome(crate::json::json_object_text(entries))
    }
}

/// What comes of parsing an answer as chat kwargs: the entries, or a message that
/// says what failed.
pub open spec fn parsing_outcome(parsed: Result<JsonEntries, Seq<char>>) -> Result<
    JsonEntries,
    Seq<char>,
> {
    match parsed {
        Ok(entries) => Ok(entries),
        Err(message) => Err("invalid upstream chat kwargs JSON: "@ + message),
    }
}

/// The chat kwargs that were entered as `text`: none for blank text, else the JSON
/// object that the text holds.
pub open spec fn entered_chat_kwargs(text: Seq<char>) -> Result<JsonEntries, Seq<char>> {
    if crate::text::is_blank(text) {
        Ok(Seq::empty())
    } else {
        parsing_outcome(crate::json::parsed_json_object(text))
    }
}

/// The text proposed for the chat kwargs is read back as the same chat kwargs.
pub open spec fn chat_kwargs_survive(existing: ConfigView) -> bool {
    &&& proposed_chat_kwargs_text(existing) matches Ok(text)
    &&& entered_chat_kwargs(text) == Ok::<JsonEntries, Seq<char>>(
        proposed_chat_kwargs(existing),
    )
}

/// The upstream whose settings the wizard proposes.
pub fn existing_default(existing: &PersistedConfig) -> (r: Option<&PersistedUpstream>)
    ensures
        match r {
            Some(upstream) => proposed_upstream(existing@) == Some(upstream@),
            None => proposed_upstream(existing@) is None,
        },
{
    match find_upstream(&existing.upstreams, &"default".to_owned()) {
        Some(upstream) => Some(upstream),
        None => if existing.upstreams.len() > 0 {
            assert(existing@.upstreams[0] == existing.upstreams[0]@);
            Some(&existing.upstreams[0])
        } else {
            None
        },
    }
}

/// The proposed base URL.
pub fn existing_url(existing: &PersistedConfig) -> (r: String)
    ensures
        r@ == proposed_url(existing@),
{
    match existing_default(existing) {
        Some(upstream) => upstream.url.clone(),
        None => "http://127.0.0.1:8000/v1".to_owned(),
    }
}

/// The API key that may be kept.
pub fn existing_api_key(existing: &PersistedConfig) -> (r: Option<String>)
    ensures
        crate::text::opt_view(r) == proposed_api_key(existing@),
{
    match existing_default(existing) {
        Some(upstream) => clone_opt(&upstream.api_key),
        None => None,
    }
}

/// The proposed model.
pub fn existing_default_model(existing: &PersistedConfig) -> (r: String)
    ensures
        r@ == proposed_model(existing@),
{
    match find_profile(&existing.model_profiles, &"*".to_owned()) {
        Some(profile) => match &profile.upstream_model {
            Some(model) => model.clone(),
            None => String::new(),
        },
        None => String::new(),
    }
}

/// The proposed log path.
pub fn existing_request_log_path(existing: &PersistedConfig) -> (r: String)
    ensures
        r@ == proposed_log_path(existing@),
{
    let own = match existing_default(existing) {
        Some(upstream) => clone_opt(&upstream.request_log_path),
        None => None,
    };
    match own {
        Some(path) => path,
        None => match &existing.upstream_request_log_path {
            Some(path) => path.clone(),
            None => String::new(),
        },
    }
}

/// What comes of encoding the chat kwargs.
pub fn encoded_chat_kwargs(encoded: Result<String, String>) -> (r: Result<String, String>)
    ensures
        crate::json::encoded_view(r) == encoding_outcome(crate::json::encoded_view(encoded)),
{
    match encoded {
        Ok(text) => Ok(text),
        Err(message) => Err(
            followed_by("failed to encode upstream chat kwargs: ", message.as_str()),
        ),
    }
}

/// The text that the prompt for the chat kwargs is filled with. It is read back as
/// the same chat kwargs where these hold no number with a fraction or an exponent, and
/// were read from some text or nest no deeper than `serde_json` reads.
pub fn existing_chat_kwargs_text(existing: &PersistedConfig) -> (r: Result<String, String>)
    ensures
        crate::json::encoded_view(r) == proposed_chat_kwargs_text(existing@),
        r is Ok,
        crate::json::is_rereadable(proposed_chat_kwargs(existing@)) ==> chat_kwargs_survive(
            existing@,
        ),
        proposed_chat_kwargs(existing@).len() == 0 ==> chat_kwargs_survive(existing@),
{
    let ghost entries = proposed_chat_kwargs(existing@);
    let upstream = match existing_default(existing) {
        Some(upstream) => upstream,
        None => {
            return Ok(String::new());
        },
    };
    if json_is_empty(&upstream.chat_kwargs) {
        assert(entries =~= Seq::empty());
        return Ok(String::new());
    }
    let r = encoded_chat_kwargs(json_encode(&upstream.chat_kwargs));
    assert(!crate::text::is_white(r->Ok_0@[0]));
    r
}

/// What comes of parsing an answer as chat kwargs.
pub fn parsed_chat_kwargs(parsed: Result<JsonMap, String>) -> (r: Result<JsonMap, String>)
    ensures
        crate::json::parsed_view(r) == parsing_outcome(crate::json::parsed_view(parsed)),
{
    match parsed {
        Ok(object) => Ok(object),
        Err(message) => Err(
            followed_by("invalid upstream chat kwargs JSON: ", message.as_str()),
        ),
    }
}

/// The chat kwargs that were entered as `text`: none for blank text, else the JSON
/// object that the text holds.
pub fn read_chat_kwargs(text: &str) -> (r: Result<JsonMap, String>)
    ensures
        crate::json::parsed_view(r) == entered_chat_kwargs(text@),
{
    if text_is_blank(text) {
        Ok(json_new())
    } else {
        parsed_chat_kwargs(json_parse(text))
    }
}

} // verus!

//! What holds of the wizard's proposals, over any existing config.

use vstd::prelude::*;

use crate::config::ConfigView;
use crate::json::JsonEntries;

verus! {

/// Whether the proposals are those of the upstream at index `i`: the least index with the
/// name `default`, or the first of all if no upstream has that name.
pub open spec fn is_source(existing: ConfigView, i: int) -> bool {
    &&& 0 <= i < existing.upstreams.len()
    &&& forall|k: int| 0 <= k < i ==> (#[trigger] existing.upstreams[k]).name != "default"@
    &&& existing.upstreams[i].name == "default"@ || (i == 0 && forall|k: int|
        0 <= k < existing.upstreams.len() ==> (#[trigger] existing.upstreams[k]).name
            != "default"@)
}

/// There is exactly one upstream that the proposals are from, unless there is none at all.
pub proof fn law_one_source(existing: ConfigView)
    ensures
        existing.upstreams.len() > 0 ==> exists|i: int| is_source(existing, i),
        forall|i: int, j: int|
            #[trigger] is_source(existing, i) && #[trigger] is_source(existing, j) ==> i == j,
{
    if existing.upstreams.len() > 0 {
        if exists|k: int|
            0 <= k < existing.upstreams.len() && (#[trigger] existing.upstreams[k]).name
                == "default"@ {
            let k = choose|k: int|
                0 <= k < existing.upstreams.len() && (#[trigger] existing.upstreams[k]).name
                    == "default"@;
            lemma_least_default(existing, k);
        } else {
            assert(is_source(existing, 0));
        }
    }
}

proof fn lemma_least_default(existing: ConfigView, k: int)
    requires
        0 <= k < existing.upstreams.len(),
        existing.upstreams[k].name == "default"@,
    ensures
        exists|i: int| is_source(existing, i),
    decreases k,
{
    if exists|j: int| 0 <= j < k && (#[trigger] existing.upstreams[j]).name == "default"@ {
        let j = choose|j: int| 0 <= j < k && (#[trigger] existing.upstreams[j]).name == "default"@;
        lemma_least_default(existing, j);
    } else {
        assert(is_source(existing, k));
    }
}

/// The proposed URL, the key that may be kept, the proposed chat kwargs and the proposed
/// log path are all of one and the same upstream, whatever the others hold. If it has no
/// key, none may be kept; if it has no log path, that of the whole config is proposed, and
/// else nothing.
pub proof fn law_proposals_are_of_one_upstream(existing: ConfigView, i: int)
    requires
        is_source(existing, i),
    ensures
        ({
            let upstream = existing.upstreams[i];
            &&& crate::wizard::proposed_upstream(existing) == Some(upstream)
            &&& crate::wizard::proposed_url(existing) == upstream.url
            &&& crate::wizard::proposed_api_key(existing) == upstream.api_key
            &&& crate::wizard::proposed_chat_kwargs(existing) == upstream.chat_kwargs
            &&& upstream.request_log_path is Some ==> crate::wizard::proposed_log_path(existing)
                == upstream.request_log_path->Some_0
            &&& upstream.request_log_path is None && existing.upstream_request_log_path is Some
                ==> crate::wizard::proposed_log_path(existing)
                == existing.upstream_request_log_path->Some_0
            &&& upstream.request_log_path is None && existing.upstream_request_log_path is None
                ==> crate::wizard::proposed_log_path(existing).len() == 0
        }),
{
    if existing.upstreams[i].name == "default"@ {
        crate::config_laws::law_first_upstream_of_name(existing.upstreams, "default"@, i);
    } else {
        crate::config_laws::law_no_upstream_of_name(existing.upstreams, "default"@);
    }
}

/// Without an upstream, the local server is proposed, without a key and without chat
/// kwargs, and the log path of the whole config.
pub proof fn law_proposals_without_upstream(existing: ConfigView)
    requires
        existing.upstreams.len() == 0,
    ensures
        crate::wizard::proposed_upstream(existing) is None,
        crate::wizard::proposed_url(existing) == "http://127.0.0.1:8000/v1"@,
        crate::wizard::proposed_api_key(existing) is None,
        crate::wizard::proposed_chat_kwargs(existing).len() == 0,
        existing.upstream_request_log_path is Some ==> crate::wizard::proposed_log_path(existing)
            == existing.upstream_request_log_path->Some_0,
        existing.upstream_request_log_path is None ==> crate::wizard::proposed_log_path(
            existing,
        ).len() == 0,
{
}

/// The proposed model is that of the profile at the least index with the key `*`, whatever
/// the profiles under other keys hold, and nothing if that profile sets none.
pub proof fn law_proposed_model(existing: ConfigView, i: int)
    requires
        0 <= i < existing.model_profiles.len(),
        existing.model_profiles[i].0 == "*"@,
        forall|k: int| 0 <= k < i ==> (#[trigger] existing.model_profiles[k]).0 != "*"@,
    ensures
        existing.model_profiles[i].1.upstream_model is Some ==> crate::wizard::proposed_model(
            existing,
        ) == existing.model_profiles[i].1.upstream_model->Some_0,
        existing.model_profiles[i].1.upstream_model is None ==> crate::wizard::proposed_model(
            existing,
        ).len() == 0,
{
    crate::config_laws::law_first_profile_of_key(existing.model_profiles, "*"@, i);
}

/// No model is proposed if no profile has the key `*`.
pub proof fn law_no_proposed_model(existing: ConfigView)
    requires
        forall|k: int|
            0 <= k < existing.model_profiles.len() ==> (#[trigger] existing.model_profiles[k]).0
                != "*"@,
    ensures
        crate::wizard::proposed_model(existing).len() == 0,
{
    crate::config_laws::law_no_profile_of_key(existing.model_profiles, "*"@);
}

/// Chat kwargs are proposed as their JSON text, unchanged, or as nothing if there are
/// none; if they cannot be encoded, the message says so.
pub proof fn law_chat_kwargs_proposal(existing: ConfigView)
    ensures
        ({
            let entries = crate::wizard::proposed_chat_kwargs(existing);
            let proposal = crate::wizard::proposed_chat_kwargs_text(existing);
            &&& entries.len() == 0 ==> proposal is Ok && proposal->Ok_0.len() == 0
            &&& entries.len() > 0 ==> match crate::json::json_object_text(entries) {
                Ok(text) => proposal == Ok::<Seq<char>, Seq<char>>(text),
                Err(message) => proposal == Err::<Seq<char>, Seq<char>>(
                    "failed to encode upstream chat kwargs: "@ + message,
                ),
            }
        }),
{
}

/// A blank text means no chat kwargs. Any other is accepted exactly if it is read as a
/// JSON object, and then means exactly the entries that were read; if not, the message
/// says why.
pub proof fn law_entered_chat_kwargs(text: Seq<char>)
    ensures
        ({
            let entered = crate::wizard::entered_chat_kwargs(text);
            let parsed = crate::json::parsed_json_object(text);
            &&& crate::text::is_blank(text) ==> entered is Ok && entered->Ok_0.len() == 0
            &&& !crate::text::is_blank(text) ==> (entered is Ok <==> parsed is Ok)
            &&& !crate::text::is_blank(text) && parsed is Ok ==> entered->Ok_0 == parsed->Ok_0
            &&& !crate::text::is_blank(text) && parsed is Err ==> entered->Err_0
                == "invalid upstream chat kwargs JSON: "@ + parsed->Err_0
        }),
{
}

/// Chat kwargs survive exactly if the text proposed for them is accepted as an answer that
/// means the same entries; if there are none, they do.
pub proof fn law_chat_kwargs_survive(existing: ConfigView)
    ensures
        ({
            let entries = crate::wizard::proposed_chat_kwargs(existing);
            let proposal = crate::wizard::proposed_chat_kwargs_text(existing);
            &&& crate::wizard::chat_kwargs_survive(existing) <==> proposal is Ok
                && crate::wizard::entered_chat_kwargs(proposal->Ok_0) == Ok::<
                JsonEntries,
                Seq<char>,
            >(entries)
            &&& entries.len() == 0 ==> crate::wizard::chat_kwargs_survive(existing)
        }),
{
    let entries = crate::wizard::proposed_chat_kwargs(existing);
    if entries.len() == 0 {
        assert(entries =~= Seq::empty());
        assert(crate::text::is_blank(Seq::<char>::empty()));
    }
}

/// What came of encoding or parsing is handed on as it is; a failure gets a message that
/// says what failed, followed by why.
pub proof fn law_outcomes(
    encoded: Result<Seq<char>, Seq<char>>,
    parsed: Result<JsonEntries, Seq<char>>,
)
    ensures
        encoded is Ok ==> crate::wizard::encoding_outcome(encoded) == encoded,
        encoded is Err ==> crate::wizard::encoding_outcome(encoded) == Err::<Seq<char>, Seq<char>>(
            "failed to encode upstream chat kwargs: "@ + encoded->Err_0,
        ),
        parsed is Ok ==> crate::wizard::parsing_outcome(parsed) == parsed,
        parsed is Err ==> crate::wizard::parsing_outcome(parsed) == Err::<JsonEntries, Seq<char>>(
            "invalid upstream chat kwargs JSON: "@ + parsed->Err_0,
        ),
{
}

} // verus!

//! What a host's arguments ask for: each argument lands in its own place, and
//! the first one that cannot be read is the one that is reported.
use crate::call_laws::says_nothing;
use crate::constructors::{
    anthropic_aws_model, azure_model, azure_model_with_base, bedrock_model, intern_built, keyed_model, keyed_service,
    provider_handle_request, provider_request, vertex_model, Access, ModelRequest, NamedRequest, Vendor,
};
use crate::error::AiMuxError;
use crate::generate_options::{no_options, GenerateTextOptions};
use crate::handles::{wrong_handle, HandleKind, Registry};
use crate::host_args::{
    answered_with, answers, answers_doc, bytes_view, decoded, decoded_some, options_read, prompt_read, prompt_value,
    WireFault, WireFaultView,
};
use crate::host_calls::{aimux_mock_replay_new, line_fault, moa_members, router_members};
use crate::host_error::{AiMuxFfiError, FfiError, FfiErrorView, FfiResult, HostErrorView};
use crate::host_requests::{
    embed_request, embedding_of, found_session, generation_read, generation_request, log_level, media_request,
    model_call, operation_request, optioned, provider_config_of_parsed, provider_model_request, reply_target,
    session_request, stream_request, trace_query, EmbedRequest, GenerationRequest, SessionRequest,
};
use crate::json::Json;
use crate::json_text::json_parse;
use crate::message::ModelPrompt;
use crate::options::AbortSignal;
use crate::protocol::StartRequest;
use crate::recording::Recording;
use crate::replay::{MockReplayModel, ScoreMatcher};
use crate::text::{decimal, law_blank_texts_are_trimmed_to_nothing, trimmed};
use vstd::prelude::*;
use vstd::string::*;
use vstd::utf8::{decode_utf8, valid_utf8};

verus! {

/// Whether an argument can be read as a text.
pub open spec fn readable(bytes: Option<&[u8]>) -> bool {
    bytes matches Some(bytes) && valid_utf8(bytes@)
}

/// Whether an argument says this text.
pub open spec fn says_text(bytes: Option<&[u8]>, text: Seq<char>) -> bool {
    bytes matches Some(bytes) && valid_utf8(bytes@) && text == decode_utf8(bytes@)
}

/// Whether an argument that may be absent can be read.
pub open spec fn absent_or_readable(bytes: Option<&[u8]>) -> bool {
    bytes is None || readable(bytes)
}

/// Whether a text is what an argument says that may be absent or empty.
pub open spec fn says_something_or_nothing(bytes: Option<&[u8]>, text: Option<String>) -> bool {
    match text {
        Some(text) => text@.len() > 0 && says_text(bytes, text@),
        None => bytes is None || says_text(bytes, Seq::empty()),
    }
}

/// Whether an error blames this argument for what is wrong with it.
pub open spec fn blames(error: FfiErrorView, bytes: Option<&[u8]>, argument: Seq<char>) -> bool {
    match bytes {
        None => error == FfiErrorView::NullPointer { argument },
        Some(_) => error == FfiErrorView::InvalidUtf8 { argument },
    }
}

// Models and services.

/// A model with a key is asked for by its own key, its own id and its own base
/// URL; the key is looked at first, the base URL last.
pub proof fn law_what_a_keyed_model_is_asked_for_with(
    vendor: Vendor,
    kind: HandleKind,
    api_key: Option<&[u8]>,
    model_id: Option<&[u8]>,
    base_url: Option<&[u8]>,
    r: Result<ModelRequest, FfiError>,
)
    requires
        call_ensures(keyed_model, (vendor, kind, api_key, model_id, base_url), r),
    ensures
        r is Ok <==> readable(api_key) && readable(model_id) && absent_or_readable(base_url),
        r matches Ok(request) ==> {
            &&& request.vendor == vendor
            &&& request.kind == kind
            &&& request.access matches Access::Key { api_key: key }
            &&& says_text(api_key, key@)
            &&& request.model_id matches Some(id)
            &&& says_text(model_id, id@)
            &&& says_something_or_nothing(base_url, request.base_url)
        },
        r matches Err(error) ==> if !readable(api_key) {
            blames(error@, api_key, "api_key"@)
        } else if !readable(model_id) {
            blames(error@, model_id, "model_id"@)
        } else {
            blames(error@, base_url, "base_url"@)
        },
{
}

/// A service with a key is asked for by its own key and its own base URL, and
/// has no model.
pub proof fn law_what_a_keyed_service_is_asked_for_with(
    vendor: Vendor,
    kind: HandleKind,
    api_key: Option<&[u8]>,
    base_url: Option<&[u8]>,
    r: Result<ModelRequest, FfiError>,
)
    requires
        call_ensures(keyed_service, (vendor, kind, api_key, base_url), r),
    ensures
        r is Ok <==> readable(api_key) && absent_or_readable(base_url),
        r matches Ok(request) ==> {
            &&& request.vendor == vendor
            &&& request.kind == kind
            &&& request.access matches Access::Key { api_key: key }
            &&& says_text(api_key, key@)
            &&& request.model_id is None
            &&& says_something_or_nothing(base_url, request.base_url)
        },
        r matches Err(error) ==> if !readable(api_key) {
            blames(error@, api_key, "api_key"@)
        } else {
            blames(error@, base_url, "base_url"@)
        },
{
}

/// A model behind a regional gateway is asked for by its key, its region, its
/// id and its base URL, each its own.
pub proof fn law_what_a_regional_model_is_asked_for_with(
    api_key: Option<&[u8]>,
    region: Option<&[u8]>,
    model_id: Option<&[u8]>,
    base_url: Option<&[u8]>,
    r: Result<ModelRequest, FfiError>,
)
    requires
        call_ensures(anthropic_aws_model, (api_key, region, model_id, base_url), r),
    ensures
        r is Ok <==> readable(api_key) && readable(region) && readable(model_id) && absent_or_readable(base_url),
        r matches Ok(request) ==> {
            &&& request.vendor is AnthropicAws
            &&& request.kind is Language
            &&& request.access matches Access::RegionalKey { api_key: key, region: place }
            &&& says_text(api_key, key@)
            &&& says_text(region, place@)
            &&& request.model_id matches Some(id)
            &&& says_text(model_id, id@)
            &&& says_something_or_nothing(base_url, request.base_url)
        },
        r matches Err(error) ==> if !readable(api_key) {
            blames(error@, api_key, "api_key"@)
        } else if !readable(region) {
            blames(error@, region, "region"@)
        } else if !readable(model_id) {
            blames(error@, model_id, "model_id"@)
        } else {
            blames(error@, base_url, "base_url"@)
        },
{
}

/// A deployment is asked for by its key, its place, its name and its version.
/// The place is a resource for the one constructor and a base URL, which may
/// not be absent, for the other; it is never both.
pub proof fn law_what_a_deployment_is_asked_for_with(
    api_key: Option<&[u8]>,
    place: Option<&[u8]>,
    deployment: Option<&[u8]>,
    api_version: Option<&[u8]>,
    by_resource: Result<ModelRequest, FfiError>,
    by_url: Result<ModelRequest, FfiError>,
)
    requires
        call_ensures(azure_model, (api_key, place, deployment, api_version), by_resource),
        call_ensures(azure_model_with_base, (api_key, place, deployment, api_version), by_url),
    ensures
        by_resource is Ok <==> readable(api_key) && readable(place) && readable(deployment) && absent_or_readable(
            api_version,
        ),
        by_url is Ok <==> by_resource is Ok,
        by_resource matches Ok(request) ==> {
            &&& request.vendor is Azure
            &&& request.kind is Language
            &&& request.access matches Access::Deployment { api_key: key, resource_name, api_version: version }
            &&& says_text(api_key, key@)
            &&& resource_name matches Some(name)
            &&& says_text(place, name@)
            &&& says_something_or_nothing(api_version, version)
            &&& request.model_id matches Some(id)
            &&& says_text(deployment, id@)
            &&& request.base_url is None
        },
        by_url matches Ok(request) ==> {
            &&& request.vendor is Azure
            &&& request.kind is Language
            &&& request.access matches Access::Deployment { api_key: key, resource_name, api_version: version }
            &&& says_text(api_key, key@)
            &&& resource_name is None
            &&& says_something_or_nothing(api_version, version)
            &&& request.model_id matches Some(id)
            &&& says_text(deployment, id@)
            &&& request.base_url matches Some(url)
            &&& says_text(place, url@)
        },
        by_resource matches Err(error) ==> if !readable(api_key) {
            blames(error@, api_key, "api_key"@)
        } else if !readable(place) {
            blames(error@, place, "resource_name"@)
        } else if !readable(deployment) {
            blames(error@, deployment, "deployment"@)
        } else {
            blames(error@, api_version, "api_version"@)
        },
        by_url matches Err(error) ==> if !readable(api_key) {
            blames(error@, api_key, "api_key"@)
        } else if !readable(place) {
            blames(error@, place, "base_url"@)
        } else if !readable(deployment) {
            blames(error@, deployment, "deployment"@)
        } else {
            blames(error@, api_version, "api_version"@)
        },
{
}

/// A model with signed requests is asked for by its access key, its secret,
/// its region, its id and its base URL, each its own.
pub proof fn law_what_a_signed_model_is_asked_for_with(
    access_key_id: Option<&[u8]>,
    secret_access_key: Option<&[u8]>,
    region: Option<&[u8]>,
    model_id: Option<&[u8]>,
    base_url: Option<&[u8]>,
    r: Result<ModelRequest, FfiError>,
)
    requires
        call_ensures(bedrock_model, (access_key_id, secret_access_key, region, model_id, base_url), r),
    ensures
        r is Ok <==> readable(access_key_id) && readable(secret_access_key) && readable(region) && readable(model_id)
            && absent_or_readable(base_url),
        r matches Ok(request) ==> {
            &&& request.vendor is Bedrock
            &&& request.kind is Language
            &&& request.access matches Access::Signature { access_key_id: id, secret_access_key: secret, region: place }
            &&& says_text(access_key_id, id@)
            &&& says_text(secret_access_key, secret@)
            &&& says_text(region, place@)
            &&& request.model_id matches Some(model)
            &&& says_text(model_id, model@)
            &&& says_something_or_nothing(base_url, request.base_url)
        },
        r matches Err(error) ==> if !readable(access_key_id) {
            blames(error@, access_key_id, "access_key_id"@)
        } else if !readable(secret_access_key) {
            blames(error@, secret_access_key, "secret_access_key"@)
        } else if !readable(region) {
            blames(error@, region, "region"@)
        } else if !readable(model_id) {
            blames(error@, model_id, "model_id"@)
        } else {
            blames(error@, base_url, "base_url"@)
        },
{
}

/// A model with a bearer token is asked for by its token, its project, its
/// location, its id and its base URL, each its own.
pub proof fn law_what_a_model_with_a_token_is_asked_for_with(
    access_token: Option<&[u8]>,
    project: Option<&[u8]>,
    location: Option<&[u8]>,
    model_id: Option<&[u8]>,
    base_url: Option<&[u8]>,
    r: Result<ModelRequest, FfiError>,
)
    requires
        call_ensures(vertex_model, (access_token, project, location, model_id, base_url), r),
    ensures
        r is Ok <==> readable(access_token) && readable(project) && readable(location) && readable(model_id)
            && absent_or_readable(base_url),
        r matches Ok(request) ==> {
            &&& request.vendor is Vertex
            &&& request.kind is Language
            &&& request.access matches Access::Token { access_token: token, project: owner, location: place }
            &&& says_text(access_token, token@)
            &&& says_text(project, owner@)
            &&& says_text(location, place@)
            &&& request.model_id matches Some(model)
            &&& says_text(model_id, model@)
            &&& says_something_or_nothing(base_url, request.base_url)
        },
        r matches Err(error) ==> if !readable(access_token) {
            blames(error@, access_token, "access_token"@)
        } else if !readable(project) {
            blames(error@, project, "project"@)
        } else if !readable(location) {
            blames(error@, location, "location"@)
        } else if !readable(model_id) {
            blames(error@, model_id, "model_id"@)
        } else {
            blames(error@, base_url, "base_url"@)
        },
{
}

/// Whether a text gives nothing to decode: it is blank, or `null`.
pub open spec fn gives_nothing(text: Seq<char>) -> bool {
    says_nothing(text) || trimmed(text) == "null"@
}

/// Whether a configuration is what a decoder reads from an argument; nothing
/// said is no configuration.
pub open spec fn is_configuration<C, F: Fn(&str) -> Result<C, WireFault>>(
    bytes: Option<&[u8]>,
    decode: F,
    config: Option<C>,
) -> bool {
    match config {
        Some(config) => exists|text: &str|
            says_text(bytes, text@) && !gives_nothing(text@) && #[trigger] call_ensures(
                decode,
                (text,),
                Ok::<C, WireFault>(config),
            ),
        None => bytes is None || (bytes matches Some(list) && valid_utf8(list@) && gives_nothing(decode_utf8(list@))),
    }
}

/// A provider's model is asked for by the provider's name, the model's id, the
/// key where there is one, and the configuration, each its own.
pub proof fn law_what_a_named_model_is_asked_for_with<C, F: Fn(&str) -> Result<C, WireFault>>(
    name: Option<&[u8]>,
    api_key: Option<&[u8]>,
    model_id: Option<&[u8]>,
    config_json: Option<&[u8]>,
    decode: &F,
    r: FfiResult<NamedRequest<C>>,
)
    requires
        call_ensures(provider_request::<C, F>, (name, api_key, model_id, config_json, decode), r),
    ensures
        r matches Ok(request) ==> {
            &&& says_text(name, request.name@)
            &&& request.model_id matches Some(id)
            &&& says_text(model_id, id@)
            &&& (match request.api_key {
                Some(key) => says_text(api_key, key@),
                None => api_key is None,
            })
            &&& is_configuration(config_json, *decode, request.config)
        },
        !readable(name) || !readable(model_id) || !absent_or_readable(api_key) ==> {
            &&& r matches Err(error)
            &&& error@ matches HostErrorView::Ffi(fault)
            &&& if !readable(name) {
                blames(fault, name, "name"@)
            } else if !readable(model_id) {
                blames(fault, model_id, "model_id"@)
            } else {
                blames(fault, api_key, "api_key"@)
            }
        },
        readable(name) && readable(model_id) && absent_or_readable(api_key) && config_json is None ==> r is Ok,
{
    assert forall|config: FfiResult<Option<C>>|
        #[trigger] decoded_some(bytes_view(config_json), "config_json"@, *decode, config) implies {
        &&& config matches Ok(c) ==> is_configuration(config_json, *decode, c)
        &&& config_json is None ==> config is Ok
    } by {
        lemma_some(config_json, "config_json"@, *decode, config);
    }
}

/// A provider is asked for by its name, the key where there is one, and the
/// configuration, each its own.
pub proof fn law_what_a_named_provider_is_asked_for_with<C, F: Fn(&str) -> Result<C, WireFault>>(
    name: Option<&[u8]>,
    api_key: Option<&[u8]>,
    config_json: Option<&[u8]>,
    decode: &F,
    r: FfiResult<NamedRequest<C>>,
)
    requires
        call_ensures(provider_handle_request::<C, F>, (name, api_key, config_json, decode), r),
    ensures
        r matches Ok(request) ==> {
            &&& says_text(name, request.name@)
            &&& request.model_id is None
            &&& (match request.api_key {
                Some(key) => says_text(api_key, key@),
                None => api_key is None,
            })
            &&& is_configuration(config_json, *decode, request.config)
        },
        !readable(name) || !absent_or_readable(api_key) ==> {
            &&& r matches Err(error)
            &&& error@ matches HostErrorView::Ffi(fault)
            &&& if !readable(name) {
                blames(fault, name, "name"@)
            } else {
                blames(fault, api_key, "api_key"@)
            }
        },
        readable(name) && absent_or_readable(api_key) && config_json is None ==> r is Ok,
{
    assert forall|config: FfiResult<Option<C>>|
        #[trigger] decoded_some(bytes_view(config_json), "config_json"@, *decode, config) implies {
        &&& config matches Ok(c) ==> is_configuration(config_json, *decode, c)
        &&& config_json is None ==> config is Ok
    } by {
        lemma_some(config_json, "config_json"@, *decode, config);
    }
}

// Calls on what a registry keeps.

/// Whether an error says that a handle is not one of some kind.
pub open spec fn blames_the_handle(error: FfiErrorView, word: Seq<char>) -> bool {
    error == wrong_handle(word)
}

/// A provider is asked for a model by the handle and the id, each its own; the
/// handle is looked at first.
pub proof fn law_which_model_a_provider_is_asked_for<'a, T, S>(
    registry: &'a Registry<T, S>,
    handle: u64,
    model_id: Option<&[u8]>,
    r: Result<(&'a T, String), FfiError>,
)
    requires
        call_ensures(provider_model_request::<T, S>, (registry, handle, model_id), r),
    ensures
        r is Ok <==> registry@.holds(handle, HandleKind::Provider) && readable(model_id),
        r matches Ok(asked) ==> *asked.0 == registry@.entries[handle].value && says_text(model_id, asked.1@),
        !registry@.holds(handle, HandleKind::Provider) ==> (r matches Err(error) && blames_the_handle(
            error@,
            HandleKind::Provider.word(),
        )),
        registry@.holds(handle, HandleKind::Provider) && !readable(model_id) ==> (r matches Err(error) && blames(
            error@,
            model_id,
            "model_id"@,
        )),
{
}

/// Data are handed to the model of the handle together with their own media
/// type.
pub proof fn law_which_data_a_model_is_handed<'a, T, S>(
    registry: &'a Registry<T, S>,
    handle: u64,
    kind: HandleKind,
    argument: &str,
    data: Option<&[u8]>,
    media_type: Option<&[u8]>,
    r: Result<(&'a T, String, String), FfiError>,
)
    requires
        call_ensures(media_request::<T, S>, (registry, handle, kind, argument, data, media_type), r),
    ensures
        r is Ok <==> registry@.holds(handle, kind) && readable(data) && readable(media_type),
        r matches Ok(asked) ==> {
            &&& *asked.0 == registry@.entries[handle].value
            &&& says_text(data, asked.1@)
            &&& says_text(media_type, asked.2@)
        },
        r matches Err(error) ==> if !registry@.holds(handle, kind) {
            blames_the_handle(error@, kind.word())
        } else if !readable(data) {
            blames(error@, data, argument@)
        } else {
            blames(error@, media_type, "media_type"@)
        },
{
}

/// A reply goes to the operation of the handle, once there is a place for its
/// status.
pub proof fn law_where_a_reply_goes<'a, T, S>(
    registry: &'a Registry<T, S>,
    status_out: bool,
    handle: u64,
    r: Result<&'a T, FfiError>,
)
    requires
        call_ensures(reply_target::<T, S>, (registry, status_out, handle), r),
    ensures
        r is Ok <==> status_out && registry@.holds(handle, HandleKind::Operation),
        r matches Ok(operation) ==> *operation == registry@.entries[handle].value,
        r matches Err(error) ==> if !status_out {
            error@ == (FfiErrorView::NullPointer { argument: "out_status"@ })
        } else {
            blames_the_handle(error@, HandleKind::Operation.word())
        },
{
}

/// A trace is asked for the session that the argument names.
pub proof fn law_which_session_is_asked_for<'a, T, S>(
    registry: &'a Registry<T, S>,
    handle: u64,
    session_id: Option<&[u8]>,
    r: Result<(&'a S, String), FfiError>,
)
    requires
        call_ensures(trace_query::<T, S>, (registry, handle, session_id), r),
    ensures
        r is Ok <==> registry@.traces.dom().contains(handle) && readable(session_id),
        r matches Ok(query) ==> *query.0 == registry@.traces[handle] && says_text(session_id, query.1@),
        r matches Err(error) ==> if !registry@.traces.dom().contains(handle) {
            blames_the_handle(error@, "trace"@)
        } else {
            blames(error@, session_id, "session_id"@)
        },
{
}

/// The level to log at is the one that was said, and `warn` only where none
/// was.
pub proof fn law_which_level_is_logged_at(level: Option<&[u8]>, r: Result<String, FfiError>)
    requires
        call_ensures(log_level, (level,), r),
    ensures
        level is None ==> (r matches Ok(told) && told@ == "warn"@),
        readable(level) ==> (r matches Ok(told) && says_text(level, told@)),
        !absent_or_readable(level) ==> (r matches Err(error) && blames(error@, level, "level"@)),
{
}

// What is read before a model is called.

/// Whether an error says that the handle is none of a kind.
pub open spec fn refuses_the_handle(error: HostErrorView, word: Seq<char>) -> bool {
    error matches HostErrorView::Ffi(fault) && blames_the_handle(fault, word)
}

/// Whether a prompt is what a decoder makes of the document of an argument.
pub open spec fn is_prompt_of<P: Fn(&Json) -> Result<ModelPrompt, WireFault>>(
    bytes: Option<&[u8]>,
    decode: P,
    prompt: ModelPrompt,
) -> bool {
    exists|json: &Json|
        {
            &&& #[trigger] call_ensures(decode, (json,), Ok::<ModelPrompt, WireFault>(prompt))
            &&& bytes matches Some(list)
            &&& valid_utf8(list@)
            &&& json_parse(decode_utf8(list@)) matches Ok(doc)
            &&& json@ == prompt_value(doc)
        }
}

/// Whether options are what a decoder makes of an argument; nothing said is no
/// options.
pub open spec fn are_options_of<O: Fn(&str) -> Result<GenerateTextOptions, WireFault>>(
    bytes: Option<&[u8]>,
    decode: O,
    options: GenerateTextOptions,
) -> bool {
    ||| is_configuration(bytes, decode, Some(options))
    ||| is_configuration(bytes, decode, None::<GenerateTextOptions>) && options@ == no_options()
}

pub proof fn lemma_prompt<P: Fn(&Json) -> Result<ModelPrompt, WireFault>>(
    bytes: Option<&[u8]>,
    decode: P,
    r: FfiResult<ModelPrompt>,
)
    requires
        prompt_read(bytes_view(bytes), decode, r),
    ensures
        r matches Ok(prompt) ==> is_prompt_of(bytes, decode, prompt),
{
    if let Ok(prompt) = r {
        let doc = json_parse(decode_utf8(bytes->Some_0@))->Ok_0;
        let answer = choose|answer: Result<ModelPrompt, WireFault>|
            #[trigger] answers_doc(decode, prompt_value(doc), answer) && (match answer {
                Ok(value) => r == Ok::<ModelPrompt, AiMuxFfiError>(value),
                Err(_) => r is Err,
            });
        let json = choose|json: &Json|
            json@ == prompt_value(doc) && #[trigger] call_ensures(decode, (json,), answer);
        assert(call_ensures(decode, (json,), Ok::<ModelPrompt, WireFault>(prompt)));
    }
}

proof fn lemma_some<C, F: Fn(&str) -> Result<C, WireFault>>(
    bytes: Option<&[u8]>,
    argument: Seq<char>,
    decode: F,
    r: FfiResult<Option<C>>,
)
    requires
        decoded_some(bytes_view(bytes), argument, decode, r),
    ensures
        r matches Ok(config) ==> is_configuration(bytes, decode, config),
        bytes is None ==> r is Ok,
{
    if let Some(list) = bytes {
        let text = decode_utf8(list@);
        law_blank_texts_are_trimmed_to_nothing(text);
        if r is Ok && valid_utf8(list@) && !gives_nothing(text) {
            let answer = choose|answer: Result<C, WireFault>|
                #[trigger] answers(decode, text, answer) && (match answer {
                    Ok(value) => r == Ok::<Option<C>, AiMuxFfiError>(Some(value)),
                    Err(_) => r is Err,
                });
            let said = choose|said: &str| said@ == text && #[trigger] call_ensures(decode, (said,), answer);
            assert(call_ensures(decode, (said,), Ok::<C, WireFault>(r->Ok_0->Some_0)));
        }
    }
}

pub proof fn lemma_options<O: Fn(&str) -> Result<GenerateTextOptions, WireFault>>(
    bytes: Option<&[u8]>,
    decode: O,
    r: FfiResult<GenerateTextOptions>,
)
    requires
        options_read(bytes_view(bytes), decode, r),
    ensures
        r matches Ok(options) ==> are_options_of(bytes, decode, options),
{
    let some = choose|some: FfiResult<Option<GenerateTextOptions>>|
        #[trigger] decoded_some(bytes_view(bytes), "opts_json"@, decode, some) && (match some {
            Ok(Some(options)) => r == Ok::<GenerateTextOptions, AiMuxFfiError>(options),
            Ok(None) => r matches Ok(options) && options@ == no_options(),
            Err(error) => r == Err::<GenerateTextOptions, AiMuxFfiError>(error),
        });
    lemma_some(bytes, "opts_json"@, decode, some);
}

/// A generation is made with the model of the handle, the prompt that the
/// prompt argument says and the options that the options argument says; a dead
/// handle is reported before anything is read.
pub proof fn law_what_a_generation_is_made_with<
    'a,
    T,
    S,
    P: Fn(&Json) -> Result<ModelPrompt, WireFault>,
    O: Fn(&str) -> Result<GenerateTextOptions, WireFault>,
>(
    registry: &'a Registry<T, S>,
    handle: u64,
    prompt_json: Option<&[u8]>,
    opts_json: Option<&[u8]>,
    decode_prompt: &P,
    decode_options: &O,
    r: FfiResult<GenerationRequest<'a, T>>,
)
    requires
        call_ensures(
            generation_request::<T, S, P, O>,
            (registry, handle, prompt_json, opts_json, decode_prompt, decode_options),
            r,
        ),
    ensures
        !registry@.holds(handle, HandleKind::Language) ==> (r matches Err(error) && refuses_the_handle(
            error@,
            HandleKind::Language.word(),
        )),
        r matches Ok(request) ==> {
            &&& registry@.holds(handle, HandleKind::Language)
            &&& *request.model == registry@.entries[handle].value
            &&& is_prompt_of(prompt_json, *decode_prompt, request.prompt)
            &&& are_options_of(opts_json, *decode_options, request.options)
        },
{
    lemma_generation(registry, handle, prompt_json, opts_json, *decode_prompt, *decode_options, r);
}

proof fn lemma_generation<
    'a,
    T,
    S,
    P: Fn(&Json) -> Result<ModelPrompt, WireFault>,
    O: Fn(&str) -> Result<GenerateTextOptions, WireFault>,
>(
    registry: &'a Registry<T, S>,
    handle: u64,
    prompt_json: Option<&[u8]>,
    opts_json: Option<&[u8]>,
    decode_prompt: P,
    decode_options: O,
    r: FfiResult<GenerationRequest<'a, T>>,
)
    requires
        generation_read(
            registry@,
            handle,
            bytes_view(prompt_json),
            bytes_view(opts_json),
            decode_prompt,
            decode_options,
            r,
        ),
    ensures
        r matches Ok(request) ==> {
            &&& registry@.holds(handle, HandleKind::Language)
            &&& *request.model == registry@.entries[handle].value
            &&& is_prompt_of(prompt_json, decode_prompt, request.prompt)
            &&& are_options_of(opts_json, decode_options, request.options)
        },
{
    if r is Ok {
        let model = registry@.entries[handle].value;
        let prompt = choose|prompt: FfiResult<ModelPrompt>|
            #[trigger] prompt_read(bytes_view(prompt_json), decode_prompt, prompt) && (match prompt {
                Err(error) => r matches Err(e) && e == error,
                Ok(prompt) => optioned(model, prompt, bytes_view(opts_json), decode_options, r),
            });
        lemma_prompt(prompt_json, decode_prompt, prompt);
        assert forall|options: FfiResult<GenerateTextOptions>|
            #[trigger] options_read(bytes_view(opts_json), decode_options, options) implies (options matches Ok(o)
            ==> are_options_of(opts_json, decode_options, o)) by {
            lemma_options(opts_json, decode_options, options);
        }
    }
}

/// A streamed generation is made with the same, and with the call's own abort
/// signal; missing callbacks are reported before anything else.
pub proof fn law_what_a_streamed_generation_is_made_with<
    'a,
    T,
    S,
    P: Fn(&Json) -> Result<ModelPrompt, WireFault>,
    O: Fn(&str) -> Result<GenerateTextOptions, WireFault>,
>(
    registry: &'a Registry<T, S>,
    callbacks: (bool, bool),
    handle: u64,
    prompt_json: Option<&[u8]>,
    opts_json: Option<&[u8]>,
    abort_signal: Option<AbortSignal>,
    decode_prompt: &P,
    decode_options: &O,
    r: FfiResult<GenerationRequest<'a, T>>,
)
    requires
        call_ensures(
            stream_request::<T, S, P, O>,
            (registry, callbacks, handle, prompt_json, opts_json, abort_signal, decode_prompt, decode_options),
            r,
        ),
    ensures
        !callbacks.0 ==> (r matches Err(error) && error@ == HostErrorView::Ffi(
            FfiErrorView::NullPointer { argument: "on_part"@ },
        )),
        callbacks.0 && !callbacks.1 ==> (r matches Err(error) && error@ == HostErrorView::Ffi(
            FfiErrorView::NullPointer { argument: "on_done"@ },
        )),
        r matches Ok(request) ==> {
            &&& callbacks.0 && callbacks.1
            &&& registry@.holds(handle, HandleKind::Language)
            &&& *request.model == registry@.entries[handle].value
            &&& is_prompt_of(prompt_json, *decode_prompt, request.prompt)
            &&& request.options.abort_signal == abort_signal
            &&& exists|options: GenerateTextOptions|
                #[trigger] are_options_of(opts_json, *decode_options, options) && request.options == (
                GenerateTextOptions { abort_signal, ..options })
        },
{
    if r is Ok {
        let read = choose|read: FfiResult<GenerationRequest<'a, T>>|
            #[trigger] generation_read(
                registry@,
                handle,
                bytes_view(prompt_json),
                bytes_view(opts_json),
                *decode_prompt,
                *decode_options,
                read,
            ) && (match (read, r) {
                (Err(error), Err(e)) => e == error,
                (Ok(read), Ok(request)) => {
                    &&& *request.model == *read.model
                    &&& request.prompt == read.prompt
                    &&& request.options == (GenerateTextOptions { abort_signal, ..read.options })
                },
                _ => false,
            });
        lemma_generation(registry, handle, prompt_json, opts_json, *decode_prompt, *decode_options, read);
        assert(are_options_of(opts_json, *decode_options, read->Ok_0.options));
    }
}

/// Whether a value is what a decoder makes of the text of an argument.
pub open spec fn is_read_from<V, F: Fn(&str) -> Result<V, WireFault>>(
    bytes: Option<&[u8]>,
    decode: F,
    value: V,
) -> bool {
    exists|text: &str|
        says_text(bytes, text@) && #[trigger] call_ensures(decode, (text,), Ok::<V, WireFault>(value))
}

pub proof fn lemma_decoded<V, F: Fn(&str) -> Result<V, WireFault>>(
    bytes: Option<&[u8]>,
    argument: Seq<char>,
    decode: F,
    r: FfiResult<V>,
)
    requires
        decoded(bytes_view(bytes), argument, decode, r),
    ensures
        r matches Ok(value) ==> is_read_from(bytes, decode, value),
        !readable(bytes) ==> (r matches Err(error) && (error@ matches HostErrorView::Ffi(fault) && blames(
            fault,
            bytes,
            argument,
        ))),
{
    if let Ok(value) = r {
        let text = decode_utf8(bytes->Some_0@);
        let answer = choose|answer: Result<V, WireFault>|
            #[trigger] answers(decode, text, answer) && (match answer {
                Ok(value) => r == Ok::<V, AiMuxFfiError>(value),
                Err(_) => r is Err,
            });
        let said = choose|said: &str| said@ == text && #[trigger] call_ensures(decode, (said,), answer);
        assert(call_ensures(decode, (said,), Ok::<V, WireFault>(value)));
    }
}

/// A call on a model of some kind, and the start of an operation, are made with
/// the model of the handle and what its one argument says.
pub proof fn law_what_a_call_is_made_with<
    'a,
    T,
    S,
    V,
    F: Fn(&str) -> Result<V, WireFault>,
    G: Fn(&str) -> Result<StartRequest, WireFault>,
>(
    registry: &'a Registry<T, S>,
    handle: u64,
    kind: HandleKind,
    argument: Option<&[u8]>,
    decode: &F,
    decode_start: &G,
    r: FfiResult<(&'a T, V)>,
    started: FfiResult<(&'a T, StartRequest)>,
)
    requires
        call_ensures(model_call::<T, S, V, F>, (registry, handle, kind, argument, decode), r),
        call_ensures(operation_request::<T, S, G>, (registry, handle, argument, decode_start), started),
    ensures
        !registry@.holds(handle, kind) ==> (r matches Err(error) && refuses_the_handle(error@, kind.word())),
        r matches Ok(call) ==> {
            &&& registry@.holds(handle, kind)
            &&& *call.0 == registry@.entries[handle].value
            &&& is_read_from(argument, *decode, call.1)
        },
        registry@.holds(handle, kind) && !readable(argument) ==> (r matches Err(error) && (error@
            matches HostErrorView::Ffi(fault) && blames(fault, argument, "opts_json"@))),
        started matches Ok(call) ==> {
            &&& registry@.holds(handle, HandleKind::Language)
            &&& *call.0 == registry@.entries[handle].value
            &&& is_read_from(argument, *decode_start, call.1)
        },
        registry@.holds(handle, HandleKind::Language) && !readable(argument) ==> (started matches Err(error) && (error@
            matches HostErrorView::Ffi(fault) && blames(fault, argument, "request_json"@))),
{
    assert forall|value: FfiResult<V>|
        #[trigger] decoded(bytes_view(argument), "opts_json"@, *decode, value) implies {
        &&& value matches Ok(v) ==> is_read_from(argument, *decode, v)
        &&& !readable(argument) ==> (value matches Err(error) && (error@ matches HostErrorView::Ffi(fault) && blames(
            fault,
            argument,
            "opts_json"@,
        )))
    } by {
        lemma_decoded(argument, "opts_json"@, *decode, value);
    }
    assert forall|value: FfiResult<StartRequest>|
        #[trigger] decoded(bytes_view(argument), "request_json"@, *decode_start, value) implies {
        &&& value matches Ok(v) ==> is_read_from(argument, *decode_start, v)
        &&& !readable(argument) ==> (value matches Err(error) && (error@ matches HostErrorView::Ffi(fault) && blames(
            fault,
            argument,
            "request_json"@,
        )))
    } by {
        lemma_decoded(argument, "request_json"@, *decode_start, value);
    }
}

/// An embedding is made with the model of the handle, the values that the
/// values argument says and the options that the options argument says.
pub proof fn law_what_an_embedding_is_made_with<
    'a,
    T,
    S,
    V,
    O,
    F: Fn(&str) -> Result<V, WireFault>,
    G: Fn(&str) -> Result<O, WireFault>,
>(
    registry: &'a Registry<T, S>,
    handle: u64,
    values_json: Option<&[u8]>,
    opts_json: Option<&[u8]>,
    decode_values: &F,
    decode_options: &G,
    r: FfiResult<EmbedRequest<'a, T, V, O>>,
)
    requires
        call_ensures(
            embed_request::<T, S, V, O, F, G>,
            (registry, handle, values_json, opts_json, decode_values, decode_options),
            r,
        ),
    ensures
        !registry@.holds(handle, HandleKind::Embedding) ==> (r matches Err(error) && refuses_the_handle(
            error@,
            HandleKind::Embedding.word(),
        )),
        registry@.holds(handle, HandleKind::Embedding) && !readable(values_json) ==> (r matches Err(error) && (error@
            matches HostErrorView::Ffi(fault) && blames(fault, values_json, "values_json"@))),
        r matches Ok(request) ==> {
            &&& registry@.holds(handle, HandleKind::Embedding)
            &&& *request.model == registry@.entries[handle].value
            &&& is_read_from(values_json, *decode_values, request.values)
            &&& is_configuration(opts_json, *decode_options, request.options)
        },
{
    if r is Ok {
        let text = decode_utf8(values_json->Some_0@);
        let model = registry@.entries[handle].value;
        let options = choose|options: FfiResult<Option<O>>|
            #[trigger] decoded_some(bytes_view(opts_json), "opts_json"@, *decode_options, options) && embedding_of(
                model,
                text,
                options,
                *decode_values,
                r,
            );
        lemma_some(opts_json, "opts_json"@, *decode_options, options);
        let values = choose|values: FfiResult<V>|
            #[trigger] answered_with(*decode_values, text, "values_json"@, values) && (match (values, r) {
                (Err(error), Err(e)) => e == error,
                (Ok(values), Ok(request)) => {
                    &&& *request.model == model
                    &&& request.values == values
                    &&& request.options == options->Ok_0
                },
                _ => false,
            });
        assert(decoded(bytes_view(values_json), "values_json"@, *decode_values, values));
        lemma_decoded(values_json, "values_json"@, *decode_values, values);
    }
}

/// A transcription session is opened on the model of its handle, with the
/// signal of the abort handle where one is given, and with what its options
/// say.
pub proof fn law_what_a_session_is_opened_with<'a, T, S, O, F: Fn(&str) -> Result<O, WireFault>>(
    registry: &'a Registry<T, S>,
    model_handle: u64,
    abort_handle: u64,
    opts_json: Option<&[u8]>,
    decode: &F,
    r: FfiResult<SessionRequest<'a, T, O>>,
)
    requires
        call_ensures(session_request::<T, S, O, F>, (registry, model_handle, abort_handle, opts_json, decode), r),
    ensures
        !registry@.holds(model_handle, HandleKind::Transcription) ==> (r matches Err(error) && refuses_the_handle(
            error@,
            HandleKind::Transcription.word(),
        )),
        registry@.holds(model_handle, HandleKind::Transcription) && abort_handle != 0 && !registry@.holds(
            abort_handle,
            HandleKind::Abort,
        ) ==> (r matches Err(error) && refuses_the_handle(error@, HandleKind::Abort.word())),
        r matches Ok(request) ==> {
            &&& registry@.holds(model_handle, HandleKind::Transcription)
            &&& *request.model == registry@.entries[model_handle].value
            &&& abort_handle == 0 ==> request.abort is None
            &&& abort_handle != 0 ==> (request.abort matches Some(signal) && registry@.holds(
                abort_handle,
                HandleKind::Abort,
            ) && *signal == registry@.entries[abort_handle].value)
        },
{
}

/// A session that is known is handed on; one that is not is an invalid argument.
pub proof fn law_what_becomes_of_a_found_session<V>(found: Option<V>, r: FfiResult<V>)
    requires
        call_ensures(found_session::<V>, (found,), r),
    ensures
        found matches Some(view) ==> r == Ok::<V, AiMuxFfiError>(view),
        found is None ==> (r matches Err(error) && (error@ matches HostErrorView::AiMux(inner) && inner
            is InvalidArgument)),
{
}

/// A configuration that is JSON is handed on as the text that it is; any other
/// is refused.
pub proof fn law_which_configurations_are_handed_on(
    text: String,
    parsed: Result<Json, String>,
    r: FfiResult<String>,
)
    requires
        call_ensures(provider_config_of_parsed, (text, parsed), r),
    ensures
        r is Ok <==> parsed is Ok,
        r matches Ok(told) ==> told@ == text@,
        r matches Err(error) ==> (error@ matches HostErrorView::Ffi(fault) && fault is InvalidWireJson),
{
}

/// The members of a router are the models that were given, in their order, and
/// at least one; those of a mixture may be none, but its aggregator is a model.
pub proof fn law_which_models_are_members<T, S>(
    registry: &Registry<T, S>,
    given: &[u64],
    len: usize,
    aggregator: u64,
    routed: FfiResult<Vec<u64>>,
    mixed: FfiResult<Vec<u64>>,
)
    requires
        given@.len() == len,
        call_ensures(router_members::<T, S>, (registry, Some(given), len), routed),
        call_ensures(moa_members::<T, S>, (registry, Some(given), len, aggregator), mixed),
    ensures
        ({
            let models = forall|i: int|
                0 <= i < given@.len() ==> registry@.holds(#[trigger] given@[i], HandleKind::Language);
            &&& routed is Ok <==> models && given@.len() > 0
            &&& routed matches Ok(list) ==> list@ == given@
            &&& mixed is Ok <==> models && registry@.holds(aggregator, HandleKind::Language)
            &&& mixed matches Ok(list) ==> list@ == given@
        }),
{
}

/// What was built is kept under a new handle of its kind; what was not is
/// reported, and nothing is kept.
pub proof fn law_what_becomes_of_what_was_built<T, S>(
    s: &mut Registry<T, S>,
    kind: HandleKind,
    built: Result<T, AiMuxError>,
    r: FfiResult<u64>,
)
    requires
        old(s)@.wf(),
        call_ensures(intern_built::<T, S>, (s, kind, built), r),
    ensures
        built matches Err(error) ==> final(s)@ == old(s)@ && (r matches Err(told) && told@ == HostErrorView::AiMux(
            error@,
        )),
        built matches Ok(value) ==> (r matches Ok(handle) && (handle != 0 ==> final(s)@.holds(handle, kind)
            && final(s)@.entries[handle].value == value && !old(s)@.entries.dom().contains(handle))),
{
}

/// A replay is made from the recordings of an argument, under the provider and
/// the model of the first; without a recording there is none.
pub proof fn law_what_a_replay_is_read_from<F: Fn(&str) -> Result<Recording, WireFault>>(
    recordings_jsonl: Option<&[u8]>,
    decode: &F,
    r: FfiResult<MockReplayModel<ScoreMatcher>>,
)
    requires
        call_ensures(aimux_mock_replay_new::<F>, (recordings_jsonl, decode), r),
    ensures
        !readable(recordings_jsonl) ==> (r matches Err(error) && (error@ matches HostErrorView::Ffi(fault) && blames(
            fault,
            recordings_jsonl,
            "recordings_jsonl"@,
        ))),
        r matches Ok(model) ==> {
            &&& model.recorded().len() > 0
            &&& model.provider_name() == model.recorded()[0].provider.provider@
            &&& model.model_name() == model.recorded()[0].provider.model_id@
            &&& model.strategy().provider() == model.recorded()[0].provider.provider@
            &&& model.strategy().model_id() == model.recorded()[0].provider.model_id@
        },
{
}

/// A line that is refused is named by its number, and stays refused for what
/// it was.
pub proof fn law_a_refused_line_is_numbered(number: nat, words: Seq<char>)
    ensures
        line_fault(number, WireFaultView::Text(words)) == WireFaultView::Text(
            ("line "@ + decimal(number) + ": "@) + words,
        ),
        line_fault(number, WireFaultView::Shape(words)) == WireFaultView::Shape(
            ("line "@ + decimal(number) + ": "@) + words,
        ),
{
}

} // verus!

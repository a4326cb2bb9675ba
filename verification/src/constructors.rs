//! What a host asks to be built: a vendor's model or service, and what it is
//! reached with.
use crate::error::AiMuxError;
use crate::handles::{HandleEntry, HandleKind, Registry};
use crate::host_args::{
    base_url_of, bytes_view, decoded_some, opt_str_arg, optional_text, parse_base_url, parse_four_args,
    parse_optional_arg, parse_two_args, required_text, str_arg, WireFault,
};
use crate::host_error::{AiMuxFfiError, FfiError, FfiErrorView, FfiResult, HostErrorView};
use crate::json_text::text_view;
use vstd::prelude::*;
use vstd::string::*;

verus! {

/// Whose model or service it is.
#[derive(Clone, Copy, PartialEq, Eq, Structural, Debug)]
pub enum Vendor {
    OpenAi,
    Anthropic,
    AnthropicAws,
    Azure,
    Bedrock,
    Vertex,
    Cohere,
    Mistral,
    Xai,
    Google,
    Tavily,
}

/// What a vendor is reached with.
#[allow(inconsistent_fields)]
pub enum Access {
    Key { api_key: String },
    RegionalKey { api_key: String, region: String },
    /// A resource, or the base URL that stands in for one.
    Deployment { api_key: String, resource_name: Option<String>, api_version: Option<String> },
    Signature { access_key_id: String, secret_access_key: String, region: String },
    Token { access_token: String, project: String, location: String },
}

#[verifier::ext_equal]
#[allow(inconsistent_fields)]
pub enum AccessView {
    Key { api_key: Seq<char> },
    RegionalKey { api_key: Seq<char>, region: Seq<char> },
    Deployment { api_key: Seq<char>, resource_name: Option<Seq<char>>, api_version: Option<Seq<char>> },
    Signature { access_key_id: Seq<char>, secret_access_key: Seq<char>, region: Seq<char> },
    Token { access_token: Seq<char>, project: Seq<char>, location: Seq<char> },
}

impl View for Access {
    type V = AccessView;

    open spec fn view(&self) -> AccessView {
        match *self {
            Access::Key { api_key } => AccessView::Key { api_key: api_key@ },
            Access::RegionalKey { api_key, region } => AccessView::RegionalKey { api_key: api_key@, region: region@ },
            Access::Deployment { api_key, resource_name, api_version } => AccessView::Deployment {
                api_key: api_key@,
                resource_name: text_view(resource_name),
                api_version: text_view(api_version),
            },
            Access::Signature { access_key_id, secret_access_key, region } => AccessView::Signature {
                access_key_id: access_key_id@,
                secret_access_key: secret_access_key@,
                region: region@,
            },
            Access::Token { access_token, project, location } => AccessView::Token {
                access_token: access_token@,
                project: project@,
                location: location@,
            },
        }
    }
}

/// What is to be built.
pub struct ModelRequest {
    pub vendor: Vendor,
    pub kind: HandleKind,
    pub access: Access,
    /// `None` for a service that is no model.
    pub model_id: Option<String>,
    /// `None` leaves the vendor's own.
    pub base_url: Option<String>,
}

#[verifier::ext_equal]
pub struct ModelRequestView {
    pub vendor: Vendor,
    pub kind: HandleKind,
    pub access: AccessView,
    pub model_id: Option<Seq<char>>,
    pub base_url: Option<Seq<char>>,
}

impl View for ModelRequest {
    type V = ModelRequestView;

    open spec fn view(&self) -> ModelRequestView {
        ModelRequestView {
            vendor: self.vendor,
            kind: self.kind,
            access: self.access@,
            model_id: text_view(self.model_id),
            base_url: text_view(self.base_url),
        }
    }
}

pub open spec fn request_view(r: Result<ModelRequest, FfiError>) -> Result<ModelRequestView, FfiErrorView> {
    match r {
        Ok(request) => Ok(request@),
        Err(error) => Err(error@),
    }
}

/// The first of two arguments that fails is the one that is reported.
pub open spec fn both<A, B>(a: Result<A, FfiErrorView>, b: Result<B, FfiErrorView>) -> Result<(A, B), FfiErrorView> {
    match (a, b) {
        (Err(error), _) => Err(error),
        (_, Err(error)) => Err(error),
        (Ok(x), Ok(y)) => Ok((x, y)),
    }
}

/// A text that may be absent; an empty one is absent.
pub open spec fn filled(bytes: Option<Seq<u8>>, argument: Seq<char>) -> Result<Option<Seq<char>>, FfiErrorView> {
    match optional_text(bytes, argument) {
        Ok(Some(text)) => if text.len() == 0 {
            Ok(None)
        } else {
            Ok(Some(text))
        },
        other => other,
    }
}

fn filled_arg(bytes: Option<&[u8]>, argument: &str) -> (r: Result<Option<String>, FfiError>)
    ensures
        filled(bytes_view(bytes), argument@) == (match r {
            Ok(text) => Ok(text_view(text)),
            Err(error) => Err(error@),
        }),
{
    match opt_str_arg(bytes, argument) {
        Ok(Some(text)) => if text.as_str().unicode_len() == 0 {
            Ok(None)
        } else {
            Ok(Some(text))
        },
        other => other,
    }
}

/// A model that is reached with a key. The key is checked first, the base URL
/// last.
pub open spec fn keyed(
    vendor: Vendor,
    kind: HandleKind,
    api_key: Option<Seq<u8>>,
    model_id: Option<Seq<u8>>,
    base_url: Option<Seq<u8>>,
) -> Result<ModelRequestView, FfiErrorView> {
    match both(
        both(required_text(api_key, "api_key"@), required_text(model_id, "model_id"@)),
        base_url_of(base_url),
    ) {
        Err(error) => Err(error),
        Ok(((api_key, model_id), base_url)) => Ok(
            ModelRequestView {
                vendor,
                kind,
                access: AccessView::Key { api_key },
                model_id: Some(model_id),
                base_url,
            },
        ),
    }
}

/// A model that is reached with a key.
pub fn keyed_model(
    vendor: Vendor,
    kind: HandleKind,
    api_key: Option<&[u8]>,
    model_id: Option<&[u8]>,
    base_url: Option<&[u8]>,
) -> (r: Result<ModelRequest, FfiError>)
    ensures
        request_view(r) == keyed(vendor, kind, bytes_view(api_key), bytes_view(model_id), bytes_view(base_url)),
{
    let (api_key, model_id) = match parse_two_args(api_key, "api_key", model_id, "model_id") {
        Err(error) => return Err(error),
        Ok(texts) => texts,
    };
    match parse_base_url(base_url) {
        Err(error) => Err(error),
        Ok(base_url) => Ok(
            ModelRequest { vendor, kind, access: Access::Key { api_key }, model_id: Some(model_id), base_url },
        ),
    }
}

/// A service that is reached with a key and is no model.
pub open spec fn served(
    vendor: Vendor,
    kind: HandleKind,
    api_key: Option<Seq<u8>>,
    base_url: Option<Seq<u8>>,
) -> Result<ModelRequestView, FfiErrorView> {
    match both(required_text(api_key, "api_key"@), base_url_of(base_url)) {
        Err(error) => Err(error),
        Ok((api_key, base_url)) => Ok(
            ModelRequestView { vendor, kind, access: AccessView::Key { api_key }, model_id: None, base_url },
        ),
    }
}

/// A service that is reached with a key and is no model.
pub fn keyed_service(vendor: Vendor, kind: HandleKind, api_key: Option<&[u8]>, base_url: Option<&[u8]>) -> (r: Result<
    ModelRequest,
    FfiError,
>)
    ensures
        request_view(r) == served(vendor, kind, bytes_view(api_key), bytes_view(base_url)),
{
    let api_key = match str_arg(api_key, "api_key") {
        Err(error) => return Err(error),
        Ok(text) => text,
    };
    match parse_base_url(base_url) {
        Err(error) => Err(error),
        Ok(base_url) => Ok(
            ModelRequest { vendor, kind, access: Access::Key { api_key }, model_id: None, base_url },
        ),
    }
}

/// A model behind a regional gateway.
pub open spec fn regional(
    api_key: Option<Seq<u8>>,
    region: Option<Seq<u8>>,
    model_id: Option<Seq<u8>>,
    base_url: Option<Seq<u8>>,
) -> Result<ModelRequestView, FfiErrorView> {
    match both(
        both(
            both(required_text(api_key, "api_key"@), required_text(region, "region"@)),
            required_text(model_id, "model_id"@),
        ),
        base_url_of(base_url),
    ) {
        Err(error) => Err(error),
        Ok((((api_key, region), model_id), base_url)) => Ok(
            ModelRequestView {
                vendor: Vendor::AnthropicAws,
                kind: HandleKind::Language,
                access: AccessView::RegionalKey { api_key, region },
                model_id: Some(model_id),
                base_url,
            },
        ),
    }
}

/// A model behind a regional gateway.
pub fn anthropic_aws_model(
    api_key: Option<&[u8]>,
    region: Option<&[u8]>,
    model_id: Option<&[u8]>,
    base_url: Option<&[u8]>,
) -> (r: Result<ModelRequest, FfiError>)
    ensures
        request_view(r) == regional(
            bytes_view(api_key),
            bytes_view(region),
            bytes_view(model_id),
            bytes_view(base_url),
        ),
{
    let (api_key, region) = match parse_two_args(api_key, "api_key", region, "region") {
        Err(error) => return Err(error),
        Ok(texts) => texts,
    };
    let model_id = match str_arg(model_id, "model_id") {
        Err(error) => return Err(error),
        Ok(text) => text,
    };
    match parse_base_url(base_url) {
        Err(error) => Err(error),
        Ok(base_url) => Ok(
            ModelRequest {
                vendor: Vendor::AnthropicAws,
                kind: HandleKind::Language,
                access: Access::RegionalKey { api_key, region },
                model_id: Some(model_id),
                base_url,
            },
        ),
    }
}

/// A deployment, found by its resource or by a base URL.
pub open spec fn deployed(
    api_key: Option<Seq<u8>>,
    place: Option<Seq<u8>>,
    by_url: bool,
    deployment: Option<Seq<u8>>,
    api_version: Option<Seq<u8>>,
) -> Result<ModelRequestView, FfiErrorView> {
    let argument = if by_url {
        "base_url"@
    } else {
        "resource_name"@
    };
    match both(
        both(
            both(required_text(api_key, "api_key"@), required_text(place, argument)),
            required_text(deployment, "deployment"@),
        ),
        filled(api_version, "api_version"@),
    ) {
        Err(error) => Err(error),
        Ok((((api_key, place), deployment), api_version)) => Ok(
            ModelRequestView {
                vendor: Vendor::Azure,
                kind: HandleKind::Language,
                access: AccessView::Deployment {
                    api_key,
                    resource_name: if by_url {
                        None
                    } else {
                        Some(place)
                    },
                    api_version,
                },
                model_id: Some(deployment),
                base_url: if by_url {
                    Some(place)
                } else {
                    None
                },
            },
        ),
    }
}

fn deployment_of(
    api_key: Option<&[u8]>,
    place: Option<&[u8]>,
    by_url: bool,
    deployment: Option<&[u8]>,
    api_version: Option<&[u8]>,
) -> (r: Result<ModelRequest, FfiError>)
    ensures
        request_view(r) == deployed(
            bytes_view(api_key),
            bytes_view(place),
            by_url,
            bytes_view(deployment),
            bytes_view(api_version),
        ),
{
    let argument: &str = if by_url {
        "base_url"
    } else {
        "resource_name"
    };
    let (api_key, place) = match parse_two_args(api_key, "api_key", place, argument) {
        Err(error) => return Err(error),
        Ok(texts) => texts,
    };
    let deployment = match str_arg(deployment, "deployment") {
        Err(error) => return Err(error),
        Ok(text) => text,
    };
    let api_version = match filled_arg(api_version, "api_version") {
        Err(error) => return Err(error),
        Ok(text) => text,
    };
    let (resource_name, base_url): (Option<String>, Option<String>) = if by_url {
        (None, Some(place))
    } else {
        (Some(place), None)
    };
    Ok(
        ModelRequest {
            vendor: Vendor::Azure,
            kind: HandleKind::Language,
            access: Access::Deployment { api_key, resource_name, api_version },
            model_id: Some(deployment),
            base_url,
        },
    )
}

/// A deployment of a resource.
pub fn azure_model(
    api_key: Option<&[u8]>,
    resource_name: Option<&[u8]>,
    deployment: Option<&[u8]>,
    api_version: Option<&[u8]>,
) -> (r: Result<ModelRequest, FfiError>)
    ensures
        request_view(r) == deployed(
            bytes_view(api_key),
            bytes_view(resource_name),
            false,
            bytes_view(deployment),
            bytes_view(api_version),
        ),
{
    deployment_of(api_key, resource_name, false, deployment, api_version)
}

/// A deployment behind a base URL, which is required.
pub fn azure_model_with_base(
    api_key: Option<&[u8]>,
    base_url: Option<&[u8]>,
    deployment: Option<&[u8]>,
    api_version: Option<&[u8]>,
) -> (r: Result<ModelRequest, FfiError>)
    ensures
        request_view(r) == deployed(
            bytes_view(api_key),
            bytes_view(base_url),
            true,
            bytes_view(deployment),
            bytes_view(api_version),
        ),
{
    deployment_of(api_key, base_url, true, deployment, api_version)
}

/// A model that is reached with three texts of which the vendor's names are
/// given, besides its own.
pub open spec fn cloud(
    a: Result<Seq<char>, FfiErrorView>,
    b: Result<Seq<char>, FfiErrorView>,
    c: Result<Seq<char>, FfiErrorView>,
    model_id: Option<Seq<u8>>,
    base_url: Option<Seq<u8>>,
    signed: bool,
) -> Result<ModelRequestView, FfiErrorView> {
    match both(both(both(both(a, b), c), required_text(model_id, "model_id"@)), base_url_of(base_url)) {
        Err(error) => Err(error),
        Ok(((((x, y), z), model_id), base_url)) => Ok(
            ModelRequestView {
                vendor: if signed {
                    Vendor::Bedrock
                } else {
                    Vendor::Vertex
                },
                kind: HandleKind::Language,
                access: if signed {
                    AccessView::Signature { access_key_id: x, secret_access_key: y, region: z }
                } else {
                    AccessView::Token { access_token: x, project: y, location: z }
                },
                model_id: Some(model_id),
                base_url,
            },
        ),
    }
}

/// A model that is reached with signed requests.
pub fn bedrock_model(
    access_key_id: Option<&[u8]>,
    secret_access_key: Option<&[u8]>,
    region: Option<&[u8]>,
    model_id: Option<&[u8]>,
    base_url: Option<&[u8]>,
) -> (r: Result<ModelRequest, FfiError>)
    ensures
        request_view(r) == cloud(
            required_text(bytes_view(access_key_id), "access_key_id"@),
            required_text(bytes_view(secret_access_key), "secret_access_key"@),
            required_text(bytes_view(region), "region"@),
            bytes_view(model_id),
            bytes_view(base_url),
            true,
        ),
{
    let texts = match parse_four_args(
        access_key_id,
        "access_key_id",
        secret_access_key,
        "secret_access_key",
        region,
        "region",
        model_id,
        "model_id",
    ) {
        Err(error) => return Err(error),
        Ok(texts) => texts,
    };
    match parse_base_url(base_url) {
        Err(error) => Err(error),
        Ok(base_url) => Ok(
            ModelRequest {
                vendor: Vendor::Bedrock,
                kind: HandleKind::Language,
                access: Access::Signature {
                    access_key_id: texts.0,
                    secret_access_key: texts.1,
                    region: texts.2,
                },
                model_id: Some(texts.3),
                base_url,
            },
        ),
    }
}

/// A model that is reached with a bearer token.
pub fn vertex_model(
    access_token: Option<&[u8]>,
    project: Option<&[u8]>,
    location: Option<&[u8]>,
    model_id: Option<&[u8]>,
    base_url: Option<&[u8]>,
) -> (r: Result<ModelRequest, FfiError>)
    ensures
        request_view(r) == cloud(
            required_text(bytes_view(access_token), "access_token"@),
            required_text(bytes_view(project), "project"@),
            required_text(bytes_view(location), "location"@),
            bytes_view(model_id),
            bytes_view(base_url),
            false,
        ),
{
    let texts = match parse_four_args(
        access_token,
        "access_token",
        project,
        "project",
        location,
        "location",
        model_id,
        "model_id",
    ) {
        Err(error) => return Err(error),
        Ok(texts) => texts,
    };
    match parse_base_url(base_url) {
        Err(error) => Err(error),
        Ok(base_url) => Ok(
            ModelRequest {
                vendor: Vendor::Vertex,
                kind: HandleKind::Language,
                access: Access::Token { access_token: texts.0, project: texts.1, location: texts.2 },
                model_id: Some(texts.3),
                base_url,
            },
        ),
    }
}

// Providers by name.

/// A provider that is asked for by its name.
pub struct NamedRequest<C> {
    pub name: String,
    /// `None` for a provider without a model.
    pub model_id: Option<String>,
    /// `None` leaves the key to the provider's environment.
    pub api_key: Option<String>,
    pub config: Option<C>,
}

/// Whether `r` is the request for a provider that was read as far as its
/// configuration.
pub open spec fn configured<C, F: Fn(&str) -> Result<C, WireFault>>(
    name: Seq<char>,
    model_id: Option<Seq<char>>,
    api_key: Option<Seq<char>>,
    config_json: Option<Seq<u8>>,
    decode: F,
    r: FfiResult<NamedRequest<C>>,
) -> bool {
    exists|config: FfiResult<Option<C>>|
        #[trigger] decoded_some(config_json, "config_json"@, decode, config) && (match (config, r) {
            (Err(error), Err(e)) => e == error,
            (Ok(config), Ok(request)) => {
                &&& request.name@ == name
                &&& text_view(request.model_id) == model_id
                &&& text_view(request.api_key) == api_key
                &&& request.config == config
            },
            _ => false,
        })
}

fn read_config<C, F: Fn(&str) -> Result<C, WireFault>>(
    name: String,
    model_id: Option<String>,
    api_key: Option<String>,
    config_json: Option<&[u8]>,
    decode: &F,
) -> (r: FfiResult<NamedRequest<C>>)
    requires
        forall|text: &str| #[trigger] call_requires(*decode, (text,)),
    ensures
        configured(name@, text_view(model_id), text_view(api_key), bytes_view(config_json), *decode, r),
{
    let config = parse_optional_arg(config_json, "config_json", decode);
    let ghost read = config;
    assert(decoded_some(bytes_view(config_json), "config_json"@, *decode, read));
    match config {
        Err(error) => Err(error),
        Ok(config) => Ok(NamedRequest { name, model_id, api_key, config }),
    }
}

/// A model of a provider by name: without a key, the provider's environment
/// has it.
pub fn provider_request<C, F: Fn(&str) -> Result<C, WireFault>>(
    name: Option<&[u8]>,
    api_key: Option<&[u8]>,
    model_id: Option<&[u8]>,
    config_json: Option<&[u8]>,
    decode: &F,
) -> (r: FfiResult<NamedRequest<C>>)
    requires
        forall|text: &str| #[trigger] call_requires(*decode, (text,)),
    ensures
        match both(
            both(required_text(bytes_view(name), "name"@), required_text(bytes_view(model_id), "model_id"@)),
            optional_text(bytes_view(api_key), "api_key"@),
        ) {
            Err(error) => r matches Err(e) && e@ == HostErrorView::Ffi(error),
            Ok(((name, model_id), key)) => configured(
                name,
                Some(model_id),
                key,
                bytes_view(config_json),
                *decode,
                r,
            ),
        },
{
    let (name, model_id) = match parse_two_args(name, "name", model_id, "model_id") {
        Err(error) => return Err(AiMuxFfiError::Ffi(error)),
        Ok(texts) => texts,
    };
    match opt_str_arg(api_key, "api_key") {
        Err(error) => Err(AiMuxFfiError::Ffi(error)),
        Ok(key) => read_config(name, Some(model_id), key, config_json, decode),
    }
}

/// A provider by name.
pub fn provider_handle_request<C, F: Fn(&str) -> Result<C, WireFault>>(
    name: Option<&[u8]>,
    api_key: Option<&[u8]>,
    config_json: Option<&[u8]>,
    decode: &F,
) -> (r: FfiResult<NamedRequest<C>>)
    requires
        forall|text: &str| #[trigger] call_requires(*decode, (text,)),
    ensures
        match both(required_text(bytes_view(name), "name"@), optional_text(bytes_view(api_key), "api_key"@)) {
            Err(error) => r matches Err(e) && e@ == HostErrorView::Ffi(error),
            Ok((name, key)) => configured(name, None, key, bytes_view(config_json), *decode, r),
        },
{
    let name = match str_arg(name, "name") {
        Err(error) => return Err(AiMuxFfiError::Ffi(error)),
        Ok(text) => text,
    };
    match opt_str_arg(api_key, "api_key") {
        Err(error) => Err(AiMuxFfiError::Ffi(error)),
        Ok(key) => read_config(name, None, key, config_json, decode),
    }
}

/// Keep what was built, or report why it was not.
pub fn intern_built<T, S>(registry: &mut Registry<T, S>, kind: HandleKind, built: Result<T, AiMuxError>) -> (r:
    FfiResult<u64>)
    requires
        old(registry)@.wf(),
    ensures
        final(registry)@.wf(),
        match built {
            Ok(value) => {
                &&& r is Ok
                &&& (final(registry)@, r->Ok_0) == old(registry)@.interned(HandleEntry { kind, value })
            },
            Err(error) => final(registry)@ == old(registry)@ && (r matches Err(e) && e@ == HostErrorView::AiMux(
                error@,
            )),
        },
{
    match built {
        Ok(value) => Ok(registry.intern_handle(kind, value)),
        Err(error) => Err(AiMuxFfiError::AiMux(error)),
    }
}

// Laws.

/// A constructor without a base URL asks for what the one with a base URL asks
/// for when the URL is absent or empty: the vendor's own.
pub proof fn law_no_base_url_is_the_default(
    vendor: Vendor,
    kind: HandleKind,
    api_key: Option<Seq<u8>>,
    model_id: Option<Seq<u8>>,
    base_url: Option<Seq<u8>>,
)
    requires
        base_url_of(base_url) == Ok::<Option<Seq<char>>, FfiErrorView>(None),
    ensures
        keyed(vendor, kind, api_key, model_id, base_url) == keyed(vendor, kind, api_key, model_id, None),
        served(vendor, kind, api_key, base_url) == served(vendor, kind, api_key, None),
{
}

/// A request that is made never carries an empty base URL.
pub proof fn law_a_base_url_says_something(
    vendor: Vendor,
    kind: HandleKind,
    api_key: Option<Seq<u8>>,
    model_id: Option<Seq<u8>>,
    base_url: Option<Seq<u8>>,
)
    ensures
        keyed(vendor, kind, api_key, model_id, base_url) matches Ok(request) ==> {
            &&& request.vendor == vendor && request.kind == kind
            &&& request.base_url matches Some(url) ==> url.len() > 0
        },
{
}

} // verus!

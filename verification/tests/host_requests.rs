use aimux::constructors::{
    anthropic_aws_model, azure_model, azure_model_with_base, bedrock_model, intern_built, keyed_model, keyed_service,
    provider_handle_request, provider_request, vertex_model, Access, Vendor,
};
use aimux::error::AiMuxError;
use aimux::generate_options::GenerateTextOptions;
use aimux::generation_control::GenerationControl;
use aimux::handles::{HandleKind, Registry};
use aimux::host_args::WireFault;
use aimux::host_error::{AiMuxFfiError, FfiError};
use aimux::host_requests::{
    embed_request, export_failure, found_session, generation_request, log_level, media_request, model_call,
    openai_stream_arg, operation_reply, operation_request, provider_config, provider_model_request, reply_target,
    session_request, stream_request, trace_query,
};
use aimux::json::Json;
use aimux::message::ModelPrompt;
use aimux::operation::Operation;
use aimux::options::{AbortSignal, TimeoutConfiguration};
use aimux::protocol::{Mode, Reply, ReplyStatus, StartRequest};

fn bytes(text: &str) -> Option<&[u8]> {
    Some(text.as_bytes())
}

fn registry() -> Registry<&'static str, &'static str> {
    let mut registry = Registry::new();
    assert_eq!(registry.intern_handle(HandleKind::Language, "model"), 1);
    assert_eq!(registry.intern_handle(HandleKind::Embedding, "embedder"), 2);
    assert_eq!(registry.intern_handle(HandleKind::Transcription, "scribe"), 3);
    assert_eq!(registry.intern_handle(HandleKind::Abort, "signal"), 4);
    assert_eq!(registry.intern_handle(HandleKind::Operation, "operation"), 5);
    assert_eq!(registry.intern_handle(HandleKind::Provider, "provider"), 6);
    assert_eq!(registry.intern_traced("traced", "store"), 7);
    registry
}

fn prompt(json: &Json) -> Result<ModelPrompt, WireFault> {
    match json.as_str() {
        Some(text) => Ok(ModelPrompt::Text(text.clone())),
        None => Err(WireFault::Shape("expected a text".into())),
    }
}

fn options(text: &str) -> Result<GenerateTextOptions, WireFault> {
    if text == "{}" {
        Ok(GenerateTextOptions { max_retries: Some(1), ..Default::default() })
    } else {
        Err(WireFault::Text("expected an object".into()))
    }
}

fn word(text: &str) -> Result<String, WireFault> {
    if text == "bad" {
        Err(WireFault::Shape("bad".into()))
    } else {
        Ok(text.into())
    }
}

#[test]
fn a_keyed_model_says_what_to_build() {
    let request = keyed_model(Vendor::OpenAi, HandleKind::Language, bytes("key"), bytes("gpt"), None).ok().unwrap();
    assert!(matches!(request.vendor, Vendor::OpenAi));
    assert!(matches!(&request.access, Access::Key { api_key } if api_key == "key"));
    assert_eq!(request.model_id.as_deref(), Some("gpt"));
    assert_eq!(request.base_url, None);
    let based =
        keyed_model(Vendor::Google, HandleKind::Video, bytes("key"), bytes("veo"), bytes("http://h")).ok().unwrap();
    assert_eq!(based.base_url.as_deref(), Some("http://h"));
    let empty = keyed_model(Vendor::Xai, HandleKind::Language, bytes("key"), bytes("grok"), bytes("")).ok().unwrap();
    assert_eq!(empty.base_url, None);
}

#[test]
fn the_first_argument_that_fails_is_reported() {
    assert!(matches!(keyed_model(Vendor::Cohere, HandleKind::Reranking, None, None, None),
        Err(FfiError::NullPointer { argument }) if argument == "api_key"));
    assert!(matches!(keyed_model(Vendor::Cohere, HandleKind::Reranking, bytes("k"), None, None),
        Err(FfiError::NullPointer { argument }) if argument == "model_id"));
    assert!(matches!(keyed_model(Vendor::Cohere, HandleKind::Language, bytes("k"), bytes("m"), Some(&[0xff])),
        Err(FfiError::InvalidUtf8 { argument }) if argument == "base_url"));
    assert!(matches!(anthropic_aws_model(bytes("k"), None, None, None),
        Err(FfiError::NullPointer { argument }) if argument == "region"));
    assert!(matches!(bedrock_model(bytes("a"), None, bytes("r"), bytes("m"), None),
        Err(FfiError::NullPointer { argument }) if argument == "secret_access_key"));
    assert!(matches!(vertex_model(bytes("t"), bytes("p"), Some(&[0xff]), None, None),
        Err(FfiError::InvalidUtf8 { argument }) if argument == "location"));
}

#[test]
fn services_and_clouds_are_reached_their_own_way() {
    let files = keyed_service(Vendor::OpenAi, HandleKind::Files, bytes("key"), None).ok().unwrap();
    assert_eq!(files.model_id, None);
    let aws = anthropic_aws_model(bytes("k"), bytes("eu"), bytes("m"), None).ok().unwrap();
    assert!(matches!(&aws.access, Access::RegionalKey { region, .. } if region == "eu"));
    let bedrock = bedrock_model(bytes("a"), bytes("s"), bytes("r"), bytes("m"), bytes("u")).ok().unwrap();
    assert!(matches!(&bedrock.access, Access::Signature { access_key_id, secret_access_key, region }
        if access_key_id == "a" && secret_access_key == "s" && region == "r"));
    assert_eq!(bedrock.base_url.as_deref(), Some("u"));
    let vertex = vertex_model(bytes("t"), bytes("p"), bytes("l"), bytes("m"), None).ok().unwrap();
    assert!(matches!(&vertex.access, Access::Token { access_token, project, location }
        if access_token == "t" && project == "p" && location == "l"));
}

#[test]
fn a_deployment_has_a_resource_or_a_base_url() {
    let resource = azure_model(bytes("k"), bytes("res"), bytes("dep"), bytes("")).ok().unwrap();
    assert!(matches!(&resource.access, Access::Deployment { resource_name: Some(name), api_version: None, .. }
        if name == "res"));
    assert_eq!(resource.base_url, None);
    let based = azure_model_with_base(bytes("k"), bytes("http://h"), bytes("dep"), bytes("v1")).ok().unwrap();
    assert!(matches!(&based.access, Access::Deployment { resource_name: None, api_version: Some(version), .. }
        if version == "v1"));
    assert_eq!(based.base_url.as_deref(), Some("http://h"));
    assert!(matches!(azure_model_with_base(bytes("k"), None, bytes("dep"), None),
        Err(FfiError::NullPointer { argument }) if argument == "base_url"));
}

#[test]
fn a_provider_by_name_may_leave_its_key_to_the_environment() {
    let request = provider_request(bytes("groq"), None, bytes("m"), bytes(" null "), &word).ok().unwrap();
    assert_eq!((request.name.as_str(), request.model_id.as_deref()), ("groq", Some("m")));
    assert!(request.api_key.is_none() && request.config.is_none());
    let handle = provider_handle_request(bytes("groq"), bytes("key"), bytes("cfg"), &word).ok().unwrap();
    assert_eq!(handle.model_id, None);
    assert_eq!(handle.api_key.as_deref(), Some("key"));
    assert_eq!(handle.config.as_deref(), Some("cfg"));
    assert!(matches!(provider_handle_request(bytes("groq"), None, bytes("bad"), &word),
        Err(AiMuxFfiError::AiMux(AiMuxError::InvalidArgument(m))) if m == "config_json: bad"));
}

#[test]
fn what_was_built_is_kept_and_what_was_not_is_reported() {
    let mut registry = registry();
    assert!(matches!(intern_built(&mut registry, HandleKind::Speech, Ok("voice")), Ok(8)));
    assert!(matches!(registry.of(8, HandleKind::Speech), Ok(&"voice")));
    assert!(matches!(intern_built(&mut registry, HandleKind::Speech, Err(AiMuxError::Other("no".into()))),
        Err(AiMuxFfiError::AiMux(AiMuxError::Other(m))) if m == "no"));
    assert!(registry.get_handle(9).is_none());
}

#[test]
fn a_generation_checks_the_handle_the_prompt_and_the_options_in_order() {
    let registry = registry();
    assert!(matches!(generation_request(&registry, 2, None, None, &prompt, &options),
        Err(AiMuxFfiError::Ffi(FfiError::InvalidHandle { expected })) if expected == "model"));
    assert!(matches!(generation_request(&registry, 1, None, bytes("bad"), &prompt, &options),
        Err(AiMuxFfiError::Ffi(FfiError::NullPointer { argument })) if argument == "prompt_json"));
    assert!(matches!(generation_request(&registry, 1, bytes("\"hi\""), bytes("bad"), &prompt, &options),
        Err(AiMuxFfiError::Ffi(FfiError::InvalidWireJson { argument, .. })) if argument == "opts_json"));
    let request = generation_request(&registry, 1, bytes("{\"prompt\":\"hi\"}"), bytes("{}"), &prompt, &options)
        .ok()
        .unwrap();
    assert_eq!(*request.model, "model");
    assert!(matches!(request.prompt, ModelPrompt::Text(text) if text == "hi"));
    assert_eq!(request.options.max_retries, Some(1));
}

#[test]
fn a_stream_checks_its_callbacks_first_and_takes_its_own_signal() {
    let registry = registry();
    let ask = |callbacks, abort| {
        stream_request(&registry, callbacks, 1, bytes("\"hi\""), None, abort, &prompt, &options)
    };
    assert!(matches!(ask((false, false), None),
        Err(AiMuxFfiError::Ffi(FfiError::NullPointer { argument })) if argument == "on_part"));
    assert!(matches!(ask((true, false), None),
        Err(AiMuxFfiError::Ffi(FfiError::NullPointer { argument })) if argument == "on_done"));
    let request = ask((true, true), Some(AbortSignal { id: 3 })).ok().unwrap();
    assert!(request.options.abort_signal.is_some());
}

#[test]
fn calls_on_other_models_read_their_arguments() {
    let registry = registry();
    assert!(matches!(model_call(&registry, 2, HandleKind::Embedding, bytes("x"), &word), Ok((&"embedder", v)) if v == "x"));
    assert!(matches!(model_call(&registry, 2, HandleKind::Video, bytes("x"), &word),
        Err(AiMuxFfiError::Ffi(FfiError::InvalidHandle { expected })) if expected == "video"));
    let request = embed_request(&registry, 2, bytes("values"), None, &word, &word).ok().unwrap();
    assert_eq!((*request.model, request.values.as_str()), ("embedder", "values"));
    assert!(request.options.is_none());
    assert!(matches!(embed_request(&registry, 2, bytes("bad"), bytes("bad"), &word, &word),
        Err(AiMuxFfiError::AiMux(AiMuxError::InvalidArgument(m))) if m == "opts_json: bad"));
    assert!(matches!(embed_request(&registry, 2, bytes("bad"), None, &word, &word),
        Err(AiMuxFfiError::AiMux(AiMuxError::InvalidArgument(m))) if m == "values_json: bad"));
    assert!(matches!(media_request(&registry, 3, HandleKind::Transcription, "audio_base64", bytes("AA"), bytes("wav")),
        Ok((&"scribe", data, kind)) if data == "AA" && kind == "wav"));
    assert!(matches!(media_request(&registry, 3, HandleKind::Transcription, "audio_base64", None, None),
        Err(FfiError::NullPointer { argument }) if argument == "audio_base64"));
    assert!(matches!(provider_model_request(&registry, 6, bytes("m")), Ok((&"provider", id)) if id == "m"));
}

#[test]
fn a_session_takes_an_abort_handle_or_none() {
    let registry = registry();
    let request = session_request(&registry, 3, 0, None, &word).ok().unwrap();
    assert_eq!((*request.model, request.options.as_str()), ("scribe", "{}"));
    assert!(request.abort.is_none());
    assert_eq!(session_request(&registry, 3, 4, None, &word).ok().unwrap().abort, Some(&"signal"));
    assert!(matches!(session_request(&registry, 3, 1, None, &word),
        Err(AiMuxFfiError::Ffi(FfiError::InvalidHandle { expected })) if expected == "abort"));
}

#[test]
fn an_operation_is_started_with_a_model_and_a_request() {
    let registry = registry();
    let decode = |_: &str| {
        Ok(StartRequest {
            protocol_version: 1,
            mode: Mode::GenerateText,
            prompt: ModelPrompt::Text("hi".into()),
            options: Json::Null,
            repair_tool_call: false,
        })
    };
    assert!(matches!(operation_request(&registry, 1, bytes("{}"), &decode), Ok((&"model", request))
        if request.protocol_version == 1));
    assert!(matches!(operation_request(&registry, 5, bytes("{}"), &decode),
        Err(AiMuxFfiError::Ffi(FfiError::InvalidHandle { expected })) if expected == "model"));
    assert!(matches!(reply_target(&registry, false, 5),
        Err(FfiError::NullPointer { argument }) if argument == "out_status"));
    assert!(matches!(reply_target(&registry, true, 5), Ok(&"operation")));
}

#[test]
fn stream_options_are_read_from_the_argument() {
    let asked = openai_stream_arg(bytes(r#"{"openai_stream_options":{"include_usage":false}}"#));
    assert!(!asked.include_usage && asked.include_reasoning);
    for nothing in [None, bytes("{"), bytes("{}")] {
        let asked = openai_stream_arg(nothing);
        assert!(asked.include_usage && asked.include_reasoning);
    }
}

#[test]
fn a_malformed_reply_does_not_reach_the_operation() {
    let signal = Some(AbortSignal { id: 3 });
    let control = GenerationControl::new(TimeoutConfiguration::none(), signal, 0).ok().unwrap();
    let mut operation = Operation::new(control);
    let decode = |text: &str| match text {
        "{" => Err(WireFault::Text("EOF".into())),
        "{}" => Err(WireFault::Shape("missing field `type`".into())),
        _ => Ok(Reply::Unchanged),
    };
    assert!(matches!(operation_reply(&mut operation, None, bytes("{}"), &decode, false, 0),
        Err(AiMuxFfiError::Ffi(FfiError::NullPointer { argument })) if argument == "request_id"));
    assert!(matches!(operation_reply(&mut operation, bytes("1"), bytes("{"), &decode, false, 0),
        Err(AiMuxFfiError::Ffi(FfiError::InvalidWireJson { argument, .. })) if argument == "reply_json"));
    assert!(matches!(operation_reply(&mut operation, bytes("1"), bytes("{}"), &decode, false, 0),
        Err(AiMuxFfiError::AiMux(AiMuxError::InvalidArgument(_)))));
    assert!(matches!(operation_reply(&mut operation, bytes("1"), bytes("{\"type\":\"unchanged\"}"), &decode, false, 0),
        Ok(ReplyStatus::UnknownRequest)));
}

#[test]
fn settings_and_traces_are_read() {
    assert_eq!(log_level(None).ok().unwrap(), "warn");
    assert_eq!(log_level(bytes("debug")).ok().unwrap(), "debug");
    assert_eq!(provider_config(bytes("{\"providers\":[]}")).ok().unwrap(), "{\"providers\":[]}");
    assert!(matches!(provider_config(bytes("{")),
        Err(AiMuxFfiError::Ffi(FfiError::InvalidWireJson { argument, .. })) if argument == "config_json"));
    let registry = registry();
    assert!(matches!(trace_query(&registry, 7, bytes("s")), Ok((&"store", id)) if id == "s"));
    assert!(matches!(trace_query(&registry, 1, bytes("s")), Err(FfiError::InvalidHandle { expected }) if expected == "trace"));
    assert!(matches!(found_session::<u8>(None), Err(AiMuxFfiError::AiMux(AiMuxError::InvalidArgument(m)))
        if m == "unknown session"));
    assert!(matches!(found_session(Some(1)), Ok(1)));
    assert_eq!(export_failure("disk").message(), "could not serialize result: export: disk");
}

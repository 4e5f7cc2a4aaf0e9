use std::time::Duration;

use tako_ipc::codec::CodecError;
use tako_ipc::protocol::{
    ErrorBody, MessageType, RequestEnvelope, ResponseEnvelope, PROTOCOL_VERSION,
};
use tako_ipc::runtime::{
    build_request_envelope, build_request_envelope_at, client_state_default, deadline_after_nanos,
    epoch_millis, epoch_now_nanos, mistyped_request, open_failure_retryable, request_decoding, deadline_from_now, handler_response,
    interpret_response, invalid_request_response, millis_to_u64, needs_connection, now_epoch_ms,
    parse_request_envelope, request_payload_undecodable, response_payload_undecodable,
    response_payload_unencodable, retry_open, settle_exchange, ClientState, ExchangeOutcome,
    LooseRequestEnvelope, ParseRequestEnvelopeError, RequestDecoding, ServerRuntime, ServerStep,
    MAX_OPEN_ATTEMPTS,
};
use tako_ipc::{CallOptions, Error, IpcAddress, ServiceError};

fn demo_runtime() -> ServerRuntime<&'static str> {
    let mut server = ServerRuntime::new(IpcAddress::NamedPipe("demo".into()));
    server.register("ping", "ping-handler").expect("register should succeed");
    server
}

fn loose(request: &RequestEnvelope) -> LooseRequestEnvelope {
    LooseRequestEnvelope {
        version: Some(request.version),
        message_type: Some(request.message_type.clone()),
        request_id: Some(request.request_id.clone()),
        method: Some(request.method.clone()),
        deadline_ms: request.deadline_ms,
        trace_id: request.trace_id.clone(),
        payload: Some(request.payload.clone()),
    }
}

fn ping_request(id: &str) -> RequestEnvelope {
    RequestEnvelope {
        version: PROTOCOL_VERSION,
        message_type: MessageType::Request,
        request_id: id.into(),
        method: "ping".into(),
        deadline_ms: None,
        trace_id: Some("trace-1".into()),
        payload: vec![0x65, b'h', b'e', b'l', b'l', b'o'],
        metadata: None,
    }
}

fn reply_of(step: ServerStep<'_, &'static str>) -> (ResponseEnvelope, bool) {
    match step {
        ServerStep::Reply { response, close_after, .. } => (response, close_after),
        ServerStep::Invoke { .. } => panic!("expected a reply, got an invocation"),
        ServerStep::Close(err) => panic!("expected a reply, got a close: {:?}", err),
    }
}

#[test]
fn registry_replaces_and_finds_handlers() {
    let mut server: ServerRuntime<u32> = ServerRuntime::new(IpcAddress::NamedPipe("demo".into()));
    assert_eq!(server.handler("ping"), None);
    assert_eq!(server.register("ping", 1), Ok(()));
    assert_eq!(server.register("echo", 2), Ok(()));
    assert_eq!(server.handler("ping"), Some(&1));
    assert_eq!(server.register("ping", 3), Ok(()));
    assert_eq!(server.handler("ping"), Some(&3));
    assert_eq!(server.handler("echo"), Some(&2));
    assert_eq!(server.handler("pin"), None);
    assert_eq!(server.address(), &IpcAddress::NamedPipe("demo".into()));
}

#[test]
fn registered_method_invokes_handler_and_payload_reaches_caller() {
    let server = demo_runtime();
    let request = ping_request("req-1");
    let step = server.begin_request(RequestDecoding::Decoded(loose(&request)), Some(10));
    let (handler, context, served) = match step {
        ServerStep::Invoke { handler, context, request } => (handler, context, request),
        _ => panic!("expected the handler to run"),
    };
    assert_eq!(*handler, "ping-handler");
    assert_eq!(context.request_id, "req-1");
    assert_eq!(context.method, "ping");
    assert_eq!(context.trace_id, Some("trace-1".to_string()));
    assert_eq!(context.deadline_ms, None);
    assert_eq!(served, request);

    let response = handler_response(&served, Ok(vec![0x65, b'h', b'e', b'l', b'l', b'o']));
    assert_eq!(response.request_id, "req-1");
    assert_eq!(response.trace_id, Some("trace-1".to_string()));
    assert_eq!(response.validate(), Ok(()));
    assert_eq!(interpret_response(Ok(response)), Ok(vec![0x65, b'h', b'e', b'l', b'l', b'o']));
}

#[test]
fn undecodable_request_payload_is_remote_decode_error() {
    let request = ping_request("req-2");
    let response = handler_response(&request, Err(request_payload_undecodable()));
    assert_eq!(
        interpret_response(Ok(response)),
        Err(Error::Remote {
            code: "decode_error".into(),
            message: "failed to decode request payload".into(),
        })
    );
}

#[test]
fn unencodable_response_payload_is_internal_error() {
    let failure = response_payload_unencodable();
    assert_eq!(failure.code, "internal_error");
    assert_eq!(failure.message, "failed to encode response payload");
    assert_eq!(
        response_payload_undecodable(),
        Error::Decode { message: "failed to decode response payload".into() }
    );
}

#[test]
fn unsupported_version_is_answered_with_invalid_request_and_closes() {
    let server = demo_runtime();
    let mut request = ping_request("req-1");
    request.version = 2;
    let (response, close_after) =
        reply_of(server.begin_request(RequestDecoding::Decoded(loose(&request)), None));
    assert!(close_after);
    assert!(!response.ok);
    assert_eq!(response.request_id, "req-1");
    assert_eq!(
        interpret_response(Ok(response)),
        Err(Error::Protocol {
            code: "invalid_request".into(),
            message: "request envelope is invalid".into(),
        })
    );
}

#[test]
fn missing_method_is_answered_with_invalid_request() {
    let server = demo_runtime();
    let mut fields = loose(&ping_request("req-missing-method"));
    fields.method = None;
    let (response, close_after) =
        reply_of(server.begin_request(RequestDecoding::Decoded(fields), None));
    assert!(close_after);
    assert_eq!(response.error.expect("error body should exist").code, "invalid_request");
}

#[test]
fn mistyped_document_is_answered_with_invalid_request() {
    let server = demo_runtime();
    let decoding = RequestDecoding::Mistyped {
        request_id: Some("req-mistyped".into()),
        trace_id: Some("trace-mistyped".into()),
    };
    let (response, close_after) = reply_of(server.begin_request(decoding, None));
    assert!(close_after);
    assert_eq!(response.request_id, "req-mistyped");
    assert_eq!(response.trace_id, Some("trace-mistyped".to_string()));
    assert_eq!(response.validate(), Ok(()));
    assert_eq!(
        interpret_response(Ok(response)),
        Err(Error::Protocol {
            code: "invalid_request".into(),
            message: "request envelope is invalid".into(),
        })
    );
}

#[test]
fn mistyped_document_without_id_gets_empty_id() {
    let server = demo_runtime();
    let decoding = RequestDecoding::Mistyped { request_id: None, trace_id: None };
    let (response, close_after) = reply_of(server.begin_request(decoding, None));
    assert!(close_after);
    assert_eq!(response.request_id, "");
    assert_eq!(response.trace_id, None);
    assert_eq!(response.error.expect("error body should exist").code, "invalid_request");
}

#[test]
fn undecodable_frame_closes_without_answer() {
    let server = demo_runtime();
    match server.begin_request(RequestDecoding::Undecodable(CodecError::InvalidCbor), None) {
        ServerStep::Close(err) => assert_eq!(
            err,
            Error::Protocol { code: "invalid_request".into(), message: "cbor decode failed".into() }
        ),
        _ => panic!("expected the connection to close"),
    }
}

#[test]
fn expired_deadline_is_remote_timeout() {
    let server = demo_runtime();
    let mut request = ping_request("req-3");
    request.deadline_ms = Some(100);
    let (response, close_after) =
        reply_of(server.begin_request(RequestDecoding::Decoded(loose(&request)), Some(100)));
    assert!(!close_after);
    assert_eq!(
        interpret_response(Ok(response)),
        Err(Error::Remote {
            code: "timeout".into(),
            message: "request deadline has expired".into(),
        })
    );
}

#[test]
fn deadline_not_reached_or_unknown_clock_runs_handler() {
    let server = demo_runtime();
    let mut request = ping_request("req-4");
    request.deadline_ms = Some(100);
    let early = server.begin_request(RequestDecoding::Decoded(loose(&request)), Some(99));
    assert!(matches!(early, ServerStep::Invoke { .. }));
    let unknown = server.begin_request(RequestDecoding::Decoded(loose(&request)), None);
    assert!(matches!(unknown, ServerStep::Invoke { .. }));
}

#[test]
fn unregistered_method_is_remote_method_not_found() {
    let server = demo_runtime();
    let mut request = ping_request("req-5");
    request.method = "missing".into();
    let (response, close_after) =
        reply_of(server.begin_request(RequestDecoding::Decoded(loose(&request)), None));
    assert!(!close_after);
    assert_eq!(
        interpret_response(Ok(response)),
        Err(Error::Remote {
            code: "method_not_found".into(),
            message: "method not registered".into(),
        })
    );
}

#[test]
fn service_error_reaches_caller_as_remote_error() {
    let request = ping_request("req-6");
    let response = handler_response(
        &request,
        Err(ServiceError { code: "internal_error".into(), message: "boom".into() }),
    );
    assert_eq!(
        interpret_response(Ok(response)),
        Err(Error::Remote { code: "internal_error".into(), message: "boom".into() })
    );
}

#[test]
fn service_error_with_invalid_request_code_is_protocol_error() {
    let request = ping_request("req-7");
    let response = handler_response(
        &request,
        Err(ServiceError { code: "invalid_request".into(), message: "nope".into() }),
    );
    assert_eq!(
        interpret_response(Ok(response)),
        Err(Error::Protocol { code: "invalid_request".into(), message: "nope".into() })
    );
}

#[test]
fn optional_fields_may_be_missing() {
    let fields = LooseRequestEnvelope {
        version: Some(PROTOCOL_VERSION),
        message_type: Some(MessageType::Request),
        request_id: Some("r".into()),
        method: Some("m".into()),
        deadline_ms: None,
        trace_id: None,
        payload: Some(vec![1]),
    };
    let request = match parse_request_envelope(RequestDecoding::Decoded(fields)) {
        Ok(request) => request,
        Err(_) => panic!("a request without deadline or trace id is valid"),
    };
    assert_eq!(request.deadline_ms, None);
    assert_eq!(request.trace_id, None);
    assert_eq!(request.validate(), Ok(()));
}

#[test]
fn missing_version_or_message_type_is_invalid() {
    let complete = loose(&ping_request("req-8"));
    let mut no_version = complete.clone();
    no_version.version = None;
    let mut no_kind = complete.clone();
    no_kind.message_type = None;
    for fields in [no_version, no_kind] {
        match parse_request_envelope(RequestDecoding::Decoded(fields)) {
            Err(ParseRequestEnvelopeError::Invalid(request)) => {
                assert_eq!(request.request_id, "req-8");
            }
            _ => panic!("an envelope without version or message type is invalid"),
        }
    }
    let server = demo_runtime();
    let mut fields = complete;
    fields.version = None;
    let (response, close_after) =
        reply_of(server.begin_request(RequestDecoding::Decoded(fields), None));
    assert!(close_after);
    assert_eq!(response.request_id, "req-8");
    assert_eq!(response.error.expect("error body should exist").code, "invalid_request");
}

#[test]
fn empty_envelope_is_invalid() {
    let empty = LooseRequestEnvelope {
        version: None,
        message_type: None,
        request_id: None,
        method: None,
        deadline_ms: None,
        trace_id: None,
        payload: None,
    };
    match parse_request_envelope(RequestDecoding::Decoded(empty)) {
        Err(ParseRequestEnvelopeError::Invalid(request)) => {
            assert_eq!(request.validate(), Err("request_id must not be empty"));
            assert!(request.payload.is_empty());
        }
        _ => panic!("an empty envelope is invalid"),
    }
}

#[test]
fn response_level_failures_are_protocol_errors() {
    assert_eq!(
        interpret_response(Err(CodecError::InvalidLength(0))),
        Err(Error::Protocol {
            code: "invalid_request".into(),
            message: "invalid frame length: 0".into(),
        })
    );
    let mut blank = ping_request("");
    blank.request_id = String::new();
    let response = invalid_request_response(&blank);
    assert_eq!(
        interpret_response(Ok(response)),
        Err(Error::Protocol {
            code: "invalid_request".into(),
            message: "request_id must not be empty".into(),
        })
    );
    let odd = ResponseEnvelope {
        version: PROTOCOL_VERSION,
        message_type: MessageType::Response,
        request_id: "x".into(),
        ok: false,
        payload: None,
        error: Some(ErrorBody { code: "custom".into(), message: "m".into(), details: None }),
        trace_id: None,
        metadata: None,
    };
    assert_eq!(
        interpret_response(Ok(odd)),
        Err(Error::Remote { code: "custom".into(), message: "m".into() })
    );
}

#[test]
fn timeout_drops_connection_and_is_not_retried() {
    let mut state: ClientState<u8> = client_state_default();
    assert!(needs_connection(&state));
    state = ClientState::Connected(7);
    assert!(!needs_connection(&state));
    assert_eq!(settle_exchange(&mut state, ExchangeOutcome::Completed(vec![1])), Ok(vec![1]));
    assert!(matches!(state, ClientState::Connected(7)));
    assert_eq!(settle_exchange(&mut state, ExchangeOutcome::TimedOut), Err(Error::Timeout));
    assert!(needs_connection(&state));
    state = ClientState::Connected(8);
    let failure = Error::Io { message: "broken".into() };
    assert_eq!(settle_exchange(&mut state, ExchangeOutcome::Failed(failure.clone())), Err(failure));
    assert!(needs_connection(&state));
}

fn is_uuid_v4(text: &str) -> bool {
    let chars: Vec<char> = text.chars().collect();
    chars.len() == 36
        && chars.iter().enumerate().all(|(i, c)| {
            if [8, 13, 18, 23].contains(&i) {
                *c == '-'
            } else {
                c.is_ascii_digit() || ('a'..='f').contains(c)
            }
        })
        && chars[14] == '4'
        && ['8', '9', 'a', 'b'].contains(&chars[19])
}

#[test]
fn request_frame_contains_generated_trace_id() {
    let request = build_request_envelope("ping", vec![1, 2], CallOptions::default());
    assert_eq!(request.version, PROTOCOL_VERSION);
    assert_eq!(request.message_type, MessageType::Request);
    assert!(is_uuid_v4(&request.request_id));
    let trace = request.trace_id.clone().expect("trace id should be generated");
    assert!(is_uuid_v4(&trace));
    assert_ne!(trace, request.request_id);
    assert_eq!(request.deadline_ms, None);
    assert_eq!(request.metadata, None);
    assert_eq!(request.validate(), Ok(()));
    let other = build_request_envelope("ping", vec![1, 2], CallOptions::default());
    assert_ne!(other.request_id, request.request_id);
}

#[test]
fn given_trace_id_and_timeout_are_sent() {
    let before = now_epoch_ms().expect("clock should read after the epoch");
    let options = CallOptions {
        timeout: Some(Duration::from_secs(1)),
        trace_id: Some("trace-test".into()),
    };
    let request = build_request_envelope("ping", vec![1], options);
    assert_eq!(request.trace_id, Some("trace-test".to_string()));
    let deadline = request.deadline_ms.expect("deadline should be set");
    assert!(deadline >= before + 1000);
    assert!(deadline <= now_epoch_ms().unwrap() + 1000);
    let bare = build_request_envelope("", vec![], CallOptions::default());
    assert_eq!(bare.validate(), Err("method must not be empty"));
}

#[test]
fn zero_timeout_deadline_is_now() {
    let before = now_epoch_ms().unwrap();
    let deadline = deadline_from_now(Duration::ZERO).unwrap();
    let after = now_epoch_ms().unwrap();
    assert!(before <= deadline && deadline <= after);
    assert_eq!(deadline_from_now(Duration::MAX), None);
}

#[test]
fn named_pipe_open_retries_are_bounded() {
    assert_eq!(MAX_OPEN_ATTEMPTS, 50);
    assert!(retry_open(0, true));
    assert!(retry_open(48, true));
    assert!(!retry_open(49, true));
    assert!(!retry_open(0, false));
}

#[test]
fn millisecond_counts_narrow_modulo_two_to_the_64() {
    assert_eq!(millis_to_u64(1_700_000_000_000), 1_700_000_000_000);
    assert_eq!(millis_to_u64(u64::MAX as u128), u64::MAX);
    assert_eq!(millis_to_u64(u64::MAX as u128 + 6), 5);
}

#[test]
fn deadline_is_reading_plus_timeout_in_milliseconds() {
    let now = 1_700_000_000_123_456_789_u128;
    assert_eq!(deadline_after_nanos(now, Duration::from_secs(1)), Some(1_700_000_001_123));
    assert_eq!(deadline_after_nanos(now, Duration::ZERO), Some(1_700_000_000_123));
    assert_eq!(deadline_after_nanos(now, Duration::from_nanos(999_999)), Some(1_700_000_000_124));
    assert_eq!(deadline_after_nanos(0, Duration::MAX), Some(((u64::MAX as u128 * 1000) + 999) as u64));
    assert_eq!(deadline_after_nanos(1_000_000_000, Duration::MAX), None);
}

#[test]
fn request_deadline_follows_the_clock_reading() {
    let now = 5_000_000_000_u128;
    let options = CallOptions { timeout: Some(Duration::from_millis(250)), trace_id: None };
    let request = build_request_envelope_at("ping", vec![1], options, Some(now));
    assert_eq!(request.deadline_ms, Some(5_250));
    let options = CallOptions { timeout: Some(Duration::from_millis(250)), trace_id: None };
    let request = build_request_envelope_at("ping", vec![1], options, None);
    assert_eq!(request.deadline_ms, None);
    let request = build_request_envelope_at("ping", vec![1], CallOptions::default(), Some(now));
    assert_eq!(request.deadline_ms, None);
}

#[test]
fn zero_timeout_request_is_answered_timeout() {
    let server = demo_runtime();
    let reading = epoch_now_nanos().expect("clock should read after the epoch");
    let options = CallOptions { timeout: Some(Duration::ZERO), trace_id: None };
    let request = build_request_envelope_at("ping", vec![1], options, Some(reading));
    let (response, _) = reply_of(
        server.begin_request(RequestDecoding::Decoded(loose(&request)), now_epoch_ms()),
    );
    assert_eq!(
        interpret_response(Ok(response)),
        Err(Error::Remote {
            code: "timeout".into(),
            message: "request deadline has expired".into(),
        })
    );
}

#[test]
fn mistyped_request_echoes_first_text_entries() {
    let entries = vec![
        ("version".to_string(), "one".to_string()),
        ("request_id".to_string(), "req-9".to_string()),
        ("request_id".to_string(), "req-10".to_string()),
    ];
    match mistyped_request(entries) {
        RequestDecoding::Mistyped { request_id, trace_id } => {
            assert_eq!(request_id, Some("req-9".to_string()));
            assert_eq!(trace_id, None);
        }
        _ => panic!("expected a mistyped document"),
    }
}

#[test]
fn clock_readings_become_whole_milliseconds() {
    assert_eq!(epoch_millis(None), None);
    assert_eq!(epoch_millis(Some(1_700_000_000_123_999_999)), Some(1_700_000_000_123));
    assert_eq!(epoch_millis(Some(999_999)), Some(0));
    let reading = epoch_now_nanos().expect("clock should read after the epoch");
    let ms = now_epoch_ms().expect("clock should read after the epoch");
    assert!(epoch_millis(Some(reading)).unwrap() <= ms);
}

#[test]
fn only_absent_or_busy_pipes_are_retried() {
    assert!(open_failure_retryable(true, None));
    assert!(open_failure_retryable(false, Some(231)));
    assert!(!open_failure_retryable(false, Some(5)));
    assert!(!open_failure_retryable(false, None));
}

#[test]
fn request_documents_are_sorted() {
    assert!(matches!(
        request_decoding(Err(CodecError::TrailingBytes), Vec::new()),
        RequestDecoding::Undecodable(CodecError::TrailingBytes)
    ));
    let fields = loose(&ping_request("req-11"));
    match request_decoding(Ok(Some(fields)), Vec::new()) {
        RequestDecoding::Decoded(l) => assert_eq!(l.request_id, Some("req-11".to_string())),
        _ => panic!("expected decoded fields"),
    }
    let entries = vec![("trace_id".to_string(), "t-1".to_string())];
    match request_decoding(Ok(None), entries) {
        RequestDecoding::Mistyped { request_id, trace_id } => {
            assert_eq!(request_id, None);
            assert_eq!(trace_id, Some("t-1".to_string()));
        }
        _ => panic!("expected a mistyped document"),
    }
}

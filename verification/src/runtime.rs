//! What the client and the server runtimes decide around each exchange:
//! the handler table, how a decoded request is answered, how a response is
//! read back into a result, and what becomes of the client's connection.
use crate::api::ErrorView;
use crate::runtime::client::{deadline_after, state_after};
use crate::runtime::server::deadline_passed;
use crate::runtime::server::opt_text;
use crate::protocol::{
    request_well_formed, response_well_formed, RequestEnvelope, ResponseEnvelope, DECODE_ERROR,
    INTERNAL_ERROR, INVALID_REQUEST, METHOD_NOT_FOUND, TIMEOUT,
};
use vstd::prelude::*;

pub mod client;
pub mod clock;
pub mod registry;
pub mod server;

pub use client::{
    build_request_envelope, build_request_envelope_at, client_state_default, deadline_after_nanos,
    deadline_from_now, epoch_millis, epoch_now_nanos, error_code_of, open_failure_retryable,
    interpret_response, millis_to_u64, needs_connection, now_epoch_ms, response_outcome,
    response_payload_undecodable, retry_open, settle_exchange, unix_socket_path, ClientState,
    ExchangeOutcome, MAX_OPEN_ATTEMPTS, PIPE_BUSY,
};
pub use clock::{read_clock, ClockReading};
pub use registry::ServerRuntime;
pub use server::{
    codec_error_to_encode, codec_error_to_protocol, handler_response, invalid_request_response,
    mistyped_request, parse_request_envelope, request_decoding, request_payload_undecodable, response_payload_unencodable,
    LooseRequestEnvelope, ParseRequestEnvelopeError, RequestDecoding, ServerStep,
};

verus! {

/// Law: a loose envelope is a well-formed request exactly when it carries a
/// version and a message type and the envelope it gives passes
/// `RequestEnvelope::validate`; so the server serves exactly the requests
/// that carry both fields and that validation accepts.
pub proof fn lemma_parse_agrees_with_validate(
    l: server::LooseRequestEnvelope,
    r: RequestEnvelope,
)
    requires
        server::defaults_filled(l, r),
    ensures
        server::loose_well_formed(l) <==> (l.version is Some && l.message_type is Some
            && request_well_formed(r)),
        r.request_id@ == server::loose_id(l),
        r.method@ == server::loose_method(l),
{
}

/// Law: every failed response the server sends to a request with an id is
/// well formed, and the caller receives its code and message: as a protocol
/// error when the code is `invalid_request`, as a remote error otherwise.
pub proof fn lemma_error_answer_reaches_caller(
    resp: ResponseEnvelope,
    request_id: Seq<char>,
    trace_id: Option<Seq<char>>,
    code: Seq<char>,
    message: Seq<char>,
)
    requires
        server::error_answer(resp, request_id, trace_id, code, message),
        request_id.len() > 0,
    ensures
        response_well_formed(resp),
        response_outcome(resp) == if code == INVALID_REQUEST@ {
            Err::<Seq<u8>, ErrorView>(ErrorView::Protocol(code, message))
        } else {
            Err::<Seq<u8>, ErrorView>(ErrorView::Remote(code, message))
        },
{
}

/// Law: a successful response the server sends to a request with an id is
/// well formed, and the caller receives exactly the handler's payload.
pub proof fn lemma_payload_answer_reaches_caller(
    resp: ResponseEnvelope,
    req: RequestEnvelope,
    payload: Seq<u8>,
)
    requires
        server::answers_with_payload(resp, req, payload),
        req.request_id@.len() > 0,
    ensures
        response_well_formed(resp),
        response_outcome(resp) == Ok::<Seq<u8>, ErrorView>(payload),
{
}

/// Law: of the protocol's error codes, only `invalid_request` reaches the
/// caller as a protocol error; `method_not_found`, `decode_error`, `timeout`
/// and `internal_error` reach it as remote errors.
pub proof fn lemma_only_invalid_request_is_protocol(
    resp: ResponseEnvelope,
    request_id: Seq<char>,
    trace_id: Option<Seq<char>>,
    code: Seq<char>,
    message: Seq<char>,
)
    requires
        server::error_answer(resp, request_id, trace_id, code, message),
        request_id.len() > 0,
        code == METHOD_NOT_FOUND@ || code == DECODE_ERROR@ || code == TIMEOUT@ || code
            == INTERNAL_ERROR@,
    ensures
        response_outcome(resp) == Err::<Seq<u8>, ErrorView>(ErrorView::Remote(code, message)),
{
    reveal_strlit("invalid_request");
    reveal_strlit("method_not_found");
    reveal_strlit("decode_error");
    reveal_strlit("timeout");
    reveal_strlit("internal_error");
    assert(INVALID_REQUEST@[0] == 'i');
    assert(code != INVALID_REQUEST@) by {
        if code == METHOD_NOT_FOUND@ {
            assert(code[0] != INVALID_REQUEST@[0]);
        } else if code == DECODE_ERROR@ {
            assert(code[0] != INVALID_REQUEST@[0]);
        } else if code == TIMEOUT@ {
            assert(code.len() != INVALID_REQUEST@.len());
        } else {
            assert(code[2] != INVALID_REQUEST@[2]);
        }
    }
    lemma_error_answer_reaches_caller(resp, request_id, trace_id, code, message);
}

/// `l` carries every field of `r`: what a server decodes when the envelope
/// `r` reaches it intact.
pub open spec fn carries(l: server::LooseRequestEnvelope, r: RequestEnvelope) -> bool {
    &&& l.version == Some(r.version)
    &&& l.message_type == Some(r.message_type)
    &&& l.request_id matches Some(s) && s@ == r.request_id@
    &&& l.method matches Some(s) && s@ == r.method@
    &&& l.deadline_ms == r.deadline_ms
    &&& opt_text(l.trace_id) == opt_text(r.trace_id)
    &&& l.payload matches Some(p) && p@ == r.payload@
}

/// Law: a well-formed request that reaches the server intact is served as
/// sent: the envelope the server works on has the same version, kind, id,
/// method, deadline, trace id and payload.
pub proof fn lemma_sent_request_is_served(
    l: server::LooseRequestEnvelope,
    r: RequestEnvelope,
    served: RequestEnvelope,
)
    requires
        carries(l, r),
        request_well_formed(r),
        server::defaults_filled(l, served),
    ensures
        server::loose_well_formed(l),
        request_well_formed(served),
        served.version == r.version,
        served.message_type == r.message_type,
        served.request_id@ == r.request_id@,
        served.method@ == r.method@,
        served.deadline_ms == r.deadline_ms,
        opt_text(served.trace_id) == opt_text(r.trace_id),
        served.payload@ == r.payload@,
{
}

/// Law: after an exchange that failed or timed out, the client has no
/// connection, so its next call opens a new one; only a completed exchange
/// leaves the connection for reuse.
pub proof fn lemma_failed_exchange_forces_new_connection<S>(before: ClientState<S>, outcome: ExchangeOutcome)
    ensures
        (outcome is Completed) ==> state_after(before, outcome) == before,
        !(outcome is Completed) ==> state_after(before, outcome) is Disconnected,
{
}

/// Law: the server answers a request whose id it could not read (missing,
/// empty, or in a document that is not a request envelope) all the same,
/// with an empty id; such an answer breaks the response rules, and the
/// caller receives it as the protocol error "request_id must not be empty".
pub proof fn lemma_idless_answer_is_protocol(
    resp: ResponseEnvelope,
    trace_id: Option<Seq<char>>,
    code: Seq<char>,
    message: Seq<char>,
)
    requires
        server::error_answer(resp, Seq::<char>::empty(), trace_id, code, message),
    ensures
        response_outcome(resp) == Err::<Seq<u8>, ErrorView>(
            ErrorView::Protocol(INVALID_REQUEST@, "request_id must not be empty"@),
        ),
{
}

/// Law: the deadline a client computes from its clock reading `now_nanos`
/// and a timeout of `timeout_nanos` has passed for a server whose clock
/// reads `server_nanos` exactly when the server's whole milliseconds have
/// reached those of the reading plus the timeout, while both millisecond
/// counts fit a `u64`. So a zero timeout has passed at any later reading,
/// and a timeout of one second has not passed within that second.
pub proof fn lemma_deadline_passes_after_timeout(
    now_nanos: nat,
    timeout_nanos: nat,
    server_nanos: nat,
)
    requires
        (now_nanos + timeout_nanos) / 1_000_000 <= u64::MAX,
        server_nanos / 1_000_000 <= u64::MAX,
    ensures
        deadline_passed(
            deadline_after(now_nanos, timeout_nanos),
            Some((server_nanos / 1_000_000) as u64),
        ) <==> server_nanos / 1_000_000 >= (now_nanos + timeout_nanos) / 1_000_000,
        timeout_nanos == 0 && now_nanos <= server_nanos ==> deadline_passed(
            deadline_after(now_nanos, timeout_nanos),
            Some((server_nanos / 1_000_000) as u64),
        ),
{
    let total = now_nanos + timeout_nanos;
    assert(total / 1_000_000_000 <= total / 1_000_000) by (nonlinear_arith);
    if timeout_nanos == 0 && now_nanos <= server_nanos {
        assert(now_nanos / 1_000_000 <= server_nanos / 1_000_000) by (nonlinear_arith)
            requires
                now_nanos <= server_nanos,
        ;
    }
}

} // verus!

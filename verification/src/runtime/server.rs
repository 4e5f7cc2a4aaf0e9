//! How the server answers one request: from what the request frame decoded
//! to, to the response it sends or the handler it runs.
use crate::api::{Error, ErrorView, RequestContext, ServiceError};
use crate::codec::{codec_error_text, CodecError};
use crate::protocol::{
    request_well_formed, ErrorBody, MessageType, RequestEnvelope, ResponseEnvelope,
    DECODE_ERROR, INTERNAL_ERROR, INVALID_REQUEST, METHOD_NOT_FOUND, PROTOCOL_VERSION, TIMEOUT,
};
use crate::runtime::registry::ServerRuntime;
use vstd::prelude::*;

verus! {

/// An optional text taken as an optional character sequence.
pub open spec fn opt_text(o: Option<String>) -> Option<Seq<char>> {
    match o {
        Some(s) => Some(s@),
        None => None,
    }
}

pub(crate) fn copy_text(o: &Option<String>) -> (copy: Option<String>)
    ensures
        opt_text(copy) == opt_text(*o),
{
    match o {
        Some(s) => Some(s.clone()),
        None => None,
    }
}

/// The error that reports a codec failure as a protocol violation.
pub fn codec_error_to_protocol(err: CodecError) -> (e: Error)
    ensures
        e@ == ErrorView::Protocol(INVALID_REQUEST@, codec_error_text(err)),
{
    Error::Protocol { code: INVALID_REQUEST.to_owned(), message: err.message() }
}

/// The error that reports a codec failure while encoding.
pub fn codec_error_to_encode(err: CodecError) -> (e: Error)
    ensures
        e@ == ErrorView::Encode(codec_error_text(err)),
{
    Error::Encode { message: err.message() }
}

/// The failure a handler reports when the request payload does not decode
/// into the type it expects.
pub fn request_payload_undecodable() -> (e: ServiceError)
    ensures
        e.code@ == DECODE_ERROR@,
        e.message@ == "failed to decode request payload"@,
{
    ServiceError {
        code: DECODE_ERROR.to_owned(),
        message: "failed to decode request payload".to_owned(),
    }
}

/// The failure a handler reports when its response does not encode.
pub fn response_payload_unencodable() -> (e: ServiceError)
    ensures
        e.code@ == INTERNAL_ERROR@,
        e.message@ == "failed to encode response payload"@,
{
    ServiceError {
        code: INTERNAL_ERROR.to_owned(),
        message: "failed to encode response payload".to_owned(),
    }
}

/// The fields of a request envelope as a decoder finds them, each possibly
/// missing.
#[derive(Clone, Debug)]
pub struct LooseRequestEnvelope {
    pub version: Option<u16>,
    pub message_type: Option<MessageType>,
    pub request_id: Option<String>,
    pub method: Option<String>,
    pub deadline_ms: Option<u64>,
    pub trace_id: Option<String>,
    pub payload: Option<Vec<u8>>,
}

/// What a request frame decoded to.
pub enum RequestDecoding {
    /// The frame or its CBOR document could not be read: its bytes cannot be trusted.
    Undecodable(CodecError),
    /// A well-formed CBOR document that is not a request envelope (a field
    /// of the wrong type, or not a map at all), with the request id and trace
    /// id that could still be read from it, to echo in the answer.
    Mistyped { request_id: Option<String>, trace_id: Option<String> },
    /// The envelope's fields.
    Decoded(LooseRequestEnvelope),
}

/// The first text stored under `key` among a document's top-level entries
/// whose key and value are both texts.
pub open spec fn first_text(entries: Seq<(String, String)>, key: Seq<char>) -> Option<Seq<char>>
    decreases entries.len(),
{
    if entries.len() == 0 {
        None
    } else if entries[0].0@ == key {
        Some(entries[0].1@)
    } else {
        first_text(entries.drop_first(), key)
    }
}

fn find_text(entries: &Vec<(String, String)>, key: &str) -> (found: Option<String>)
    ensures
        opt_text(found) == first_text(entries@, key@),
{
    let wanted = key.to_owned();
    let mut i: usize = 0;
    assert(entries@.skip(0) =~= entries@);
    while i < entries.len()
        invariant
            0 <= i <= entries@.len(),
            wanted@ == key@,
            first_text(entries@, key@) == first_text(entries@.skip(i as int), key@),
        decreases entries@.len() - i,
    {
        assert(entries@.skip(i as int)[0] == entries@[i as int]);
        if entries[i].0 == wanted {
            return Some(entries[i].1.clone());
        }
        assert(entries@.skip(i as int).drop_first() =~= entries@.skip(i + 1));
        i = i + 1;
    }
    assert(entries@.skip(i as int).len() == 0);
    None
}

/// What a document that is not a request envelope decodes to, given its
/// top-level entries whose key and value are both texts: the request id and
/// trace id stored first among them, to echo in the answer.
pub fn mistyped_request(entries: Vec<(String, String)>) -> (decoding: RequestDecoding)
    ensures
        decoding matches RequestDecoding::Mistyped { request_id, trace_id } && opt_text(request_id)
            == first_text(entries@, "request_id"@) && opt_text(trace_id) == first_text(
            entries@,
            "trace_id"@,
        ),
{
    RequestDecoding::Mistyped {
        request_id: find_text(&entries, "request_id"),
        trace_id: find_text(&entries, "trace_id"),
    }
}

/// Sorts what reading a request document gave: the codec error that stopped
/// the frame or its CBOR document from being read; the envelope's fields,
/// when the document reads as an envelope; otherwise a mistyped document,
/// with its top-level text entries.
pub fn request_decoding(
    document: Result<Option<LooseRequestEnvelope>, CodecError>,
    text_entries: Vec<(String, String)>,
) -> (decoding: RequestDecoding)
    ensures
        match document {
            Err(c) => decoding == RequestDecoding::Undecodable(c),
            Ok(Some(l)) => decoding == RequestDecoding::Decoded(l),
            Ok(None) => decoding matches RequestDecoding::Mistyped { request_id, trace_id }
                && opt_text(request_id) == first_text(text_entries@, "request_id"@) && opt_text(
                trace_id,
            ) == first_text(text_entries@, "trace_id"@),
        },
{
    match document {
        Err(c) => RequestDecoding::Undecodable(c),
        Ok(Some(l)) => RequestDecoding::Decoded(l),
        Ok(None) => mistyped_request(text_entries),
    }
}

/// Why a decoded frame gives no request to serve.
pub enum ParseRequestEnvelopeError {
    /// The bytes could not be trusted; the connection must close unanswered.
    Protocol(Error),
    /// The envelope breaks the protocol's rules; it is answered with
    /// `invalid_request`. It holds the envelope with its missing fields defaulted.
    Invalid(RequestEnvelope),
}

/// `r` is the envelope `l` with every missing field defaulted: version 1,
/// request kind, empty texts and payload.
pub open spec fn defaults_filled(l: LooseRequestEnvelope, r: RequestEnvelope) -> bool {
    &&& r.version == match l.version {
        Some(v) => v,
        None => PROTOCOL_VERSION,
    }
    &&& r.message_type == match l.message_type {
        Some(t) => t,
        None => MessageType::Request,
    }
    &&& r.request_id@ == match l.request_id {
        Some(s) => s@,
        None => Seq::<char>::empty(),
    }
    &&& r.method@ == match l.method {
        Some(s) => s@,
        None => Seq::<char>::empty(),
    }
    &&& r.deadline_ms == l.deadline_ms
    &&& opt_text(r.trace_id) == opt_text(l.trace_id)
    &&& r.payload@ == match l.payload {
        Some(p) => p@,
        None => Seq::<u8>::empty(),
    }
    &&& r.metadata is None
}

/// The envelope that stands for a document that is not a request envelope:
/// only the request id and trace id that could be read from it, empty
/// otherwise.
pub open spec fn blank_request(
    r: RequestEnvelope,
    request_id: Option<String>,
    trace_id: Option<String>,
) -> bool {
    &&& r.version == PROTOCOL_VERSION
    &&& r.message_type == MessageType::Request
    &&& r.request_id@ == match request_id {
        Some(s) => s@,
        None => Seq::<char>::empty(),
    }
    &&& r.method@ == Seq::<char>::empty()
    &&& r.deadline_ms is None
    &&& opt_text(r.trace_id) == opt_text(trace_id)
    &&& r.payload@ == Seq::<u8>::empty()
    &&& r.metadata is None
}

/// The request id of a loose envelope, empty when missing.
pub open spec fn loose_id(l: LooseRequestEnvelope) -> Seq<char> {
    match l.request_id {
        Some(s) => s@,
        None => Seq::<char>::empty(),
    }
}

/// The method of a loose envelope, empty when missing.
pub open spec fn loose_method(l: LooseRequestEnvelope) -> Seq<char> {
    match l.method {
        Some(s) => s@,
        None => Seq::<char>::empty(),
    }
}

/// A loose envelope is a well-formed request: it carries the current
/// version and the request kind, and a non-empty request id, method and
/// payload. Only the deadline and the trace id may be missing.
pub open spec fn loose_well_formed(l: LooseRequestEnvelope) -> bool {
    &&& l.version == Some(PROTOCOL_VERSION)
    &&& l.message_type == Some(MessageType::Request)
    &&& loose_id(l).len() > 0
    &&& loose_method(l).len() > 0
    &&& l.payload matches Some(p) && p@.len() > 0
}

fn text_or_empty(o: Option<String>) -> (s: String)
    ensures
        s@ == match o {
            Some(t) => t@,
            None => Seq::<char>::empty(),
        },
{
    match o {
        Some(t) => t,
        None => String::new(),
    }
}

/// Turns what a request frame decoded to into the request to serve, or says
/// why there is none.
pub fn parse_request_envelope(decoding: RequestDecoding) -> (res: Result<
    RequestEnvelope,
    ParseRequestEnvelopeError,
>)
    ensures
        match decoding {
            RequestDecoding::Undecodable(c) => res matches Err(ParseRequestEnvelopeError::Protocol(
                e,
            )) && e@ == ErrorView::Protocol(INVALID_REQUEST@, codec_error_text(c)),
            RequestDecoding::Mistyped { request_id, trace_id } => res matches Err(
                ParseRequestEnvelopeError::Invalid(r),
            ) && blank_request(r, request_id, trace_id),
            RequestDecoding::Decoded(l) => match res {
                Ok(r) => defaults_filled(l, r) && loose_well_formed(l) && request_well_formed(r),
                Err(ParseRequestEnvelopeError::Invalid(r)) => defaults_filled(l, r)
                    && !loose_well_formed(l),
                Err(ParseRequestEnvelopeError::Protocol(_)) => false,
            },
        },
{
    let loose = match decoding {
        RequestDecoding::Undecodable(c) => {
            return Err(ParseRequestEnvelopeError::Protocol(codec_error_to_protocol(c)));
        },
        RequestDecoding::Mistyped { request_id, trace_id } => {
            let blank = RequestEnvelope {
                version: PROTOCOL_VERSION,
                message_type: MessageType::Request,
                request_id: text_or_empty(request_id),
                method: String::new(),
                deadline_ms: None,
                trace_id,
                payload: Vec::new(),
                metadata: None,
            };
            return Err(ParseRequestEnvelopeError::Invalid(blank));
        },
        RequestDecoding::Decoded(l) => l,
    };
    let ghost l = loose;
    let carries_kind = loose.version.is_some() && loose.message_type.is_some();
    let request = RequestEnvelope {
        version: match loose.version {
            Some(v) => v,
            None => PROTOCOL_VERSION,
        },
        message_type: match loose.message_type {
            Some(t) => t,
            None => MessageType::Request,
        },
        request_id: text_or_empty(loose.request_id),
        method: text_or_empty(loose.method),
        deadline_ms: loose.deadline_ms,
        trace_id: loose.trace_id,
        payload: match loose.payload {
            Some(p) => p,
            None => Vec::new(),
        },
        metadata: None,
    };
    if !carries_kind || request.version != PROTOCOL_VERSION
        || request.message_type != MessageType::Request
        || request.request_id.as_str().is_empty() || request.method.as_str().is_empty()
        || request.payload.is_empty() {
        return Err(ParseRequestEnvelopeError::Invalid(request));
    }
    Ok(request)
}

/// `resp` is a failed response with this code and message, to the request
/// of this id and trace id.
pub open spec fn error_answer(
    resp: ResponseEnvelope,
    request_id: Seq<char>,
    trace_id: Option<Seq<char>>,
    code: Seq<char>,
    message: Seq<char>,
) -> bool {
    &&& resp.version == PROTOCOL_VERSION
    &&& resp.message_type == MessageType::Response
    &&& resp.request_id@ == request_id
    &&& !resp.ok
    &&& resp.payload is None
    &&& resp.error matches Some(e) && e.code@ == code && e.message@ == message && e.details is None
    &&& opt_text(resp.trace_id) == trace_id
    &&& resp.metadata is None
}

/// `resp` answers `req` with an error of this code and message, and echoes
/// the request's id and trace id.
pub open spec fn answers_with_error(
    resp: ResponseEnvelope,
    req: RequestEnvelope,
    code: Seq<char>,
    message: Seq<char>,
) -> bool {
    error_answer(resp, req.request_id@, opt_text(req.trace_id), code, message)
}

/// `resp` answers `req` successfully with this payload, and echoes the
/// request's id and trace id.
pub open spec fn answers_with_payload(
    resp: ResponseEnvelope,
    req: RequestEnvelope,
    payload: Seq<u8>,
) -> bool {
    &&& resp.version == PROTOCOL_VERSION
    &&& resp.message_type == MessageType::Response
    &&& resp.request_id@ == req.request_id@
    &&& resp.ok
    &&& resp.payload matches Some(p) && p@ == payload
    &&& resp.error is None
    &&& opt_text(resp.trace_id) == opt_text(req.trace_id)
    &&& resp.metadata is None
}

fn error_response(request: &RequestEnvelope, code: String, message: String) -> (resp:
    ResponseEnvelope)
    ensures
        answers_with_error(resp, *request, code@, message@),
{
    ResponseEnvelope {
        version: PROTOCOL_VERSION,
        message_type: MessageType::Response,
        request_id: request.request_id.clone(),
        ok: false,
        payload: None,
        error: Some(ErrorBody { code, message, details: None }),
        trace_id: copy_text(&request.trace_id),
        metadata: None,
    }
}

/// The answer to a request that breaks the protocol's rules.
pub fn invalid_request_response(request: &RequestEnvelope) -> (resp: ResponseEnvelope)
    ensures
        answers_with_error(resp, *request, INVALID_REQUEST@, "request envelope is invalid"@),
{
    error_response(request, INVALID_REQUEST.to_owned(), "request envelope is invalid".to_owned())
}

/// The answer to a request once its handler has run: the handler's payload,
/// or its error's code and message.
pub fn handler_response(request: &RequestEnvelope, outcome: Result<Vec<u8>, ServiceError>) -> (resp:
    ResponseEnvelope)
    ensures
        match outcome {
            Ok(payload) => answers_with_payload(resp, *request, payload@),
            Err(e) => answers_with_error(resp, *request, e.code@, e.message@),
        },
{
    match outcome {
        Ok(payload) => ResponseEnvelope {
            version: PROTOCOL_VERSION,
            message_type: MessageType::Response,
            request_id: request.request_id.clone(),
            ok: true,
            payload: Some(payload),
            error: None,
            trace_id: copy_text(&request.trace_id),
            metadata: None,
        },
        Err(e) => error_response(request, e.code, e.message),
    }
}

/// The deadline has passed: there is one, the clock could be read, and it
/// reads no earlier than the deadline.
pub open spec fn deadline_passed(deadline_ms: Option<u64>, now_ms: Option<u64>) -> bool {
    match (deadline_ms, now_ms) {
        (Some(deadline), Some(now)) => now >= deadline,
        _ => false,
    }
}

/// The context a handler receives for `req`.
pub open spec fn context_of(ctx: RequestContext, req: RequestEnvelope) -> bool {
    &&& ctx.request_id@ == req.request_id@
    &&& ctx.method@ == req.method@
    &&& opt_text(ctx.trace_id) == opt_text(req.trace_id)
    &&& ctx.deadline_ms == req.deadline_ms
}

/// Law: a context made for a request carries the request's id, method,
/// trace id and deadline, so a handler sees the deadline it is held to.
pub proof fn lemma_context_carries_request(ctx: RequestContext, req: RequestEnvelope)
    requires
        context_of(ctx, req),
    ensures
        ctx.request_id@ == req.request_id@,
        ctx.method@ == req.method@,
        ctx.deadline_ms == req.deadline_ms,
        ctx.trace_id is None <==> req.trace_id is None,
        ctx.trace_id matches Some(t) ==> (req.trace_id matches Some(u) && t@ == u@),
{
}

/// Law: a deadline has passed exactly when there is one, the clock could be
/// read, and the reading is at or after it.
pub proof fn lemma_deadline_passed_fields(deadline_ms: Option<u64>, now_ms: Option<u64>)
    ensures
        deadline_passed(deadline_ms, now_ms) <==> (deadline_ms is Some && now_ms is Some
            && now_ms->Some_0 >= deadline_ms->Some_0),
{
}

/// What the server does with one request frame.
pub enum ServerStep<'a, H> {
    /// Close the connection without answering: its bytes cannot be trusted.
    Close(Error),
    /// Send this response to `request` (the envelope as decoded, its missing
    /// fields defaulted), then close the connection if `close_after`.
    Reply { request: RequestEnvelope, response: ResponseEnvelope, close_after: bool },
    /// Run this handler on the context and on the request's payload, then
    /// send the [`handler_response`] to the request.
    Invoke { handler: &'a H, context: RequestContext, request: RequestEnvelope },
}

impl<H> ServerRuntime<H> {
    /// Decides what to do with one request frame, given what it decoded to
    /// and the clock's reading (`None` when the clock could not be read).
    ///
    /// Untrustworthy bytes close the connection unanswered; an envelope that
    /// breaks the rules is answered with `invalid_request` and the connection
    /// closes after it; a request past its deadline is answered with
    /// `timeout`; a method with no handler with `method_not_found`; anything
    /// else runs the method's handler. An answer always echoes the request's
    /// id and trace id as far as they could be read; where no id could be
    /// read, the `invalid_request` answer carries an empty one.
    pub fn begin_request(&self, decoding: RequestDecoding, now_ms: Option<u64>) -> (step:
        ServerStep<'_, H>)
        ensures
            match decoding {
                RequestDecoding::Undecodable(c) => step matches ServerStep::Close(e) && e@
                    == ErrorView::Protocol(INVALID_REQUEST@, codec_error_text(c)),
                RequestDecoding::Mistyped { request_id, trace_id } => step matches ServerStep::Reply {
                    request,
                    response,
                    close_after,
                } && close_after && blank_request(request, request_id, trace_id) && answers_with_error(
                    response,
                    request,
                    INVALID_REQUEST@,
                    "request envelope is invalid"@,
                ),
                RequestDecoding::Decoded(l) => match step {
                    ServerStep::Close(_) => false,
                    ServerStep::Reply { request, response, close_after } => defaults_filled(
                        l,
                        request,
                    ) && if !loose_well_formed(l) {
                        close_after && answers_with_error(
                            response,
                            request,
                            INVALID_REQUEST@,
                            "request envelope is invalid"@,
                        )
                    } else if deadline_passed(request.deadline_ms, now_ms) {
                        !close_after && answers_with_error(
                            response,
                            request,
                            TIMEOUT@,
                            "request deadline has expired"@,
                        )
                    } else {
                        !close_after && !self.handler_map().dom().contains(request.method@)
                            && answers_with_error(
                            response,
                            request,
                            METHOD_NOT_FOUND@,
                            "method not registered"@,
                        )
                    },
                    ServerStep::Invoke { handler, context, request } => defaults_filled(l, request)
                        && loose_well_formed(l) && request_well_formed(request) && !deadline_passed(
                        request.deadline_ms,
                        now_ms,
                    ) && self.handler_map().dom().contains(request.method@) && *handler
                        == self.handler_map()[request.method@] && context_of(context, request)
                        && (l.request_id matches Some(id) && id@ == request.request_id@)
                        && (l.method matches Some(m) && m@ == request.method@)
                        && request.deadline_ms == l.deadline_ms && (l.payload matches Some(p)
                        && p@ == request.payload@) && context.request_id@ == request.request_id@ && context.method@
                        == request.method@ && context.deadline_ms == request.deadline_ms
                        && context.deadline_ms == l.deadline_ms && (context.trace_id is None
                        <==> l.trace_id is None) && (context.trace_id matches Some(t) ==> (
                    l.trace_id matches Some(u) && t@ == u@)),
                },
            },
    {
        let request = match parse_request_envelope(decoding) {
            Ok(request) => request,
            Err(ParseRequestEnvelopeError::Invalid(request)) => {
                let response = invalid_request_response(&request);
                return ServerStep::Reply { request, response, close_after: true };
            },
            Err(ParseRequestEnvelopeError::Protocol(err)) => {
                return ServerStep::Close(err);
            },
        };
        let expired = match (request.deadline_ms, now_ms) {
            (Some(deadline), Some(now)) => now >= deadline,
            _ => false,
        };
        if expired {
            let response = error_response(
                &request,
                TIMEOUT.to_owned(),
                "request deadline has expired".to_owned(),
            );
            return ServerStep::Reply { request, response, close_after: false };
        }
        match self.handler(request.method.as_str()) {
            None => {
                let response = error_response(
                    &request,
                    METHOD_NOT_FOUND.to_owned(),
                    "method not registered".to_owned(),
                );
                ServerStep::Reply { request, response, close_after: false }
            },
            Some(handler) => {
                let context = RequestContext {
                    request_id: request.request_id.clone(),
                    method: request.method.clone(),
                    trace_id: copy_text(&request.trace_id),
                    deadline_ms: request.deadline_ms,
                };
                ServerStep::Invoke { handler, context, request }
            },
        }
    }
}

} // verus!

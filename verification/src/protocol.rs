//! Request and response envelopes of the wire protocol, the protocol's
//! constants, and the shape rules that every envelope has to meet.
use std::collections::BTreeMap;
use vstd::prelude::*;

verus! {

/// The only protocol version this library speaks.
pub const PROTOCOL_VERSION: u16 = 1;

/// Largest payload, in bytes, that a frame may carry.
pub const MAX_FRAME_SIZE: u32 = 4 * 1024 * 1024;

/// Error code: the envelope is malformed, of another version or of the wrong kind.
pub const INVALID_REQUEST: &'static str = "invalid_request";

/// Error code: no handler is registered under the requested method.
pub const METHOD_NOT_FOUND: &'static str = "method_not_found";

/// Error code: the handler could not decode the request payload.
pub const DECODE_ERROR: &'static str = "decode_error";

/// Error code: the request's deadline had passed before it was served.
pub const TIMEOUT: &'static str = "timeout";

/// Error code: the handler failed for a reason of its own.
pub const INTERNAL_ERROR: &'static str = "internal_error";

/// Whether an envelope travels from client to server or back.
#[derive(Clone, Copy, Debug, PartialEq, Eq, Structural)]
pub enum MessageType {
    Request,
    Response,
}

/// A call from a client to a server.
#[derive(Clone, Debug, PartialEq)]
pub struct RequestEnvelope {
    pub version: u16,
    pub message_type: MessageType,
    pub request_id: String,
    pub method: String,
    pub deadline_ms: Option<u64>,
    pub trace_id: Option<String>,
    pub payload: Vec<u8>,
    pub metadata: Option<BTreeMap<String, String>>,
}

/// The reason that [`RequestEnvelope::validate`] gives for the first rule
/// the envelope breaks, checked in the order the protocol lists them; `None`
/// when it breaks none.
pub open spec fn request_violation(r: RequestEnvelope) -> Option<Seq<char>> {
    if r.version != PROTOCOL_VERSION {
        Some("request version is not supported"@)
    } else if r.message_type != MessageType::Request {
        Some("request envelope must have request message type"@)
    } else if r.request_id@.len() == 0 {
        Some("request_id must not be empty"@)
    } else if r.method@.len() == 0 {
        Some("method must not be empty"@)
    } else if r.payload@.len() == 0 {
        Some("payload must not be empty"@)
    } else {
        None
    }
}

/// A request envelope is well formed: current version, request kind, and a
/// non-empty request id, method and payload.
pub open spec fn request_well_formed(r: RequestEnvelope) -> bool {
    &&& r.version == PROTOCOL_VERSION
    &&& r.message_type == MessageType::Request
    &&& r.request_id@.len() > 0
    &&& r.method@.len() > 0
    &&& r.payload@.len() > 0
}

impl RequestEnvelope {
    /// Checks the envelope against the protocol's shape rules and names the
    /// first one it breaks.
    pub fn validate(&self) -> (res: Result<(), &'static str>)
        ensures
            match res {
                Ok(()) => request_violation(*self) is None,
                Err(reason) => request_violation(*self) == Some(reason@),
            },
            res is Ok <==> request_well_formed(*self),
    {
        if self.version != PROTOCOL_VERSION {
            return Err("request version is not supported");
        }
        if self.message_type != MessageType::Request {
            return Err("request envelope must have request message type");
        }
        if self.request_id.as_str().is_empty() {
            return Err("request_id must not be empty");
        }
        if self.method.as_str().is_empty() {
            return Err("method must not be empty");
        }
        if self.payload.is_empty() {
            return Err("payload must not be empty");
        }
        Ok(())
    }
}

/// The error part of a failed response.
#[derive(Clone, Debug, PartialEq)]
pub struct ErrorBody {
    pub code: String,
    pub message: String,
    pub details: Option<String>,
}

/// A server's answer to one request.
#[derive(Clone, Debug, PartialEq)]
pub struct ResponseEnvelope {
    pub version: u16,
    pub message_type: MessageType,
    pub request_id: String,
    pub ok: bool,
    pub payload: Option<Vec<u8>>,
    pub error: Option<ErrorBody>,
    pub trace_id: Option<String>,
    pub metadata: Option<BTreeMap<String, String>>,
}

/// The reason that [`ResponseEnvelope::validate`] gives for the first rule
/// the envelope breaks; `None` when it breaks none.
pub open spec fn response_violation(r: ResponseEnvelope) -> Option<Seq<char>> {
    if r.version != PROTOCOL_VERSION {
        Some("response version is not supported"@)
    } else if r.message_type != MessageType::Response {
        Some("response envelope must have response message type"@)
    } else if r.request_id@.len() == 0 {
        Some("request_id must not be empty"@)
    } else if r.ok && r.error is Some {
        Some("successful response must not contain error"@)
    } else if r.ok && r.payload is None {
        Some("successful response must contain payload"@)
    } else if !r.ok && r.error is None {
        Some("failed response must contain error"@)
    } else if !r.ok && r.payload is Some {
        Some("failed response must not contain payload"@)
    } else {
        None
    }
}

/// A response envelope is well formed: current version, response kind, a
/// non-empty request id, and exactly one of payload (on success) and error
/// (on failure).
pub open spec fn response_well_formed(r: ResponseEnvelope) -> bool {
    &&& r.version == PROTOCOL_VERSION
    &&& r.message_type == MessageType::Response
    &&& r.request_id@.len() > 0
    &&& r.ok ==> (r.payload is Some && r.error is None)
    &&& !r.ok ==> (r.error is Some && r.payload is None)
}

impl ResponseEnvelope {
    /// Checks the envelope against the protocol's shape rules and names the
    /// first one it breaks.
    pub fn validate(&self) -> (res: Result<(), &'static str>)
        ensures
            match res {
                Ok(()) => response_violation(*self) is None,
                Err(reason) => response_violation(*self) == Some(reason@),
            },
            res is Ok <==> response_well_formed(*self),
    {
        if self.version != PROTOCOL_VERSION {
            return Err("response version is not supported");
        }
        if self.message_type != MessageType::Response {
            return Err("response envelope must have response message type");
        }
        if self.request_id.as_str().is_empty() {
            return Err("request_id must not be empty");
        }
        if self.ok && self.error.is_some() {
            return Err("successful response must not contain error");
        }
        if self.ok && self.payload.is_none() {
            return Err("successful response must contain payload");
        }
        if !self.ok && self.error.is_none() {
            return Err("failed response must contain error");
        }
        if !self.ok && self.payload.is_some() {
            return Err("failed response must not contain payload");
        }
        Ok(())
    }
}

/// Law: a request envelope passes validation exactly when its version is 1,
/// it is of the request kind, and its request id, method and payload are all
/// non-empty; its deadline, trace id and metadata play no part.
pub proof fn lemma_request_validation_fields(r: RequestEnvelope)
    ensures
        request_violation(r) is None <==> (r.version == 1 && r.message_type
            == MessageType::Request && r.request_id@.len() > 0 && r.method@.len() > 0
            && r.payload@.len() > 0),
        request_well_formed(r) <==> (r.version == 1 && r.message_type == MessageType::Request
            && r.request_id@.len() > 0 && r.method@.len() > 0 && r.payload@.len() > 0),
{
}

/// Law: two request envelopes that agree on version, kind, request id,
/// method and payload get the same answer from validation, whatever their
/// deadlines, trace ids and metadata.
pub proof fn lemma_request_validation_ignores_extras(a: RequestEnvelope, b: RequestEnvelope)
    requires
        a.version == b.version,
        a.message_type == b.message_type,
        a.request_id@ == b.request_id@,
        a.method@ == b.method@,
        a.payload@ == b.payload@,
    ensures
        request_violation(a) == request_violation(b),
        request_well_formed(a) == request_well_formed(b),
{
}

/// Law: a response envelope passes validation exactly when its version is 1,
/// it is of the response kind, its request id is non-empty, and it carries
/// a payload and no error when it succeeded, an error and no payload when it
/// failed; the error's details, the trace id and the metadata play no part.
pub proof fn lemma_response_validation_fields(r: ResponseEnvelope)
    ensures
        response_violation(r) is None <==> (r.version == 1 && r.message_type
            == MessageType::Response && r.request_id@.len() > 0 && (if r.ok {
            r.payload is Some && r.error is None
        } else {
            r.error is Some && r.payload is None
        })),
        response_well_formed(r) <==> (r.version == 1 && r.message_type == MessageType::Response
            && r.request_id@.len() > 0 && (if r.ok {
            r.payload is Some && r.error is None
        } else {
            r.error is Some && r.payload is None
        })),
{
}

/// Law: two response envelopes that agree on version, kind, request id,
/// success, whether a payload and an error are present, get the same answer
/// from validation, whatever their error details, trace ids and metadata.
pub proof fn lemma_response_validation_ignores_extras(a: ResponseEnvelope, b: ResponseEnvelope)
    requires
        a.version == b.version,
        a.message_type == b.message_type,
        a.request_id@ == b.request_id@,
        a.ok == b.ok,
        (a.payload is Some) == (b.payload is Some),
        (a.error is Some) == (b.error is Some),
    ensures
        response_violation(a) == response_violation(b),
        response_well_formed(a) == response_well_formed(b),
{
}

} // verus!

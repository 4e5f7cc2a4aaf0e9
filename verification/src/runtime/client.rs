//! What the client decides around a call: the request envelope it sends,
//! how it reads the server's response into a result, and what becomes of
//! its connection after each exchange.
use crate::api::{CallOptions, Error, ErrorView, IpcAddress};
use crate::codec::{codec_error_text, CodecError};
use crate::protocol::{
    request_well_formed, response_violation, MessageType, RequestEnvelope, ResponseEnvelope,
    INVALID_REQUEST, PROTOCOL_VERSION,
};
use crate::runtime::server::{codec_error_to_protocol, copy_text};
use std::path::PathBuf;
use crate::runtime::clock::{duration_as_nanos, duration_nanos, read_clock, ClockReading};
use std::time::Duration;
use vstd::prelude::*;

verus! {

/// A millisecond count narrowed to 64 bits, as `as u64` narrows it: the
/// count modulo 2^64.
pub fn millis_to_u64(ms: u128) -> (narrowed: u64)
    ensures
        narrowed == ms as u64,
{
    #[verifier::truncate]
    let narrowed = ms as u64;
    narrowed
}

/// Nanoseconds since the Unix epoch, by the system clock; `None` when the
/// clock reads before the epoch. It is what one reading of the clock holds.
pub fn epoch_now_nanos() -> (nanos: Option<u128>)
    ensures
        exists|r: ClockReading| nanos == #[trigger] r.nanos_since_epoch(),
{
    let reading = read_clock();
    reading.nanos()
}

/// The deadline, in whole milliseconds since the Unix epoch, that lies
/// `timeout_nanos` after `now_nanos`: `None` when its seconds overflow a
/// `u64` (as adding two `Duration`s does), else the milliseconds narrowed
/// to a `u64`.
pub open spec fn deadline_after(now_nanos: nat, timeout_nanos: nat) -> Option<u64> {
    let total = now_nanos + timeout_nanos;
    if total / 1_000_000_000 > u64::MAX {
        None
    } else {
        Some((total / 1_000_000) as u64)
    }
}

/// Law: while the deadline's milliseconds fit a `u64`, the deadline that a
/// timeout gives from a clock reading is the whole milliseconds of the
/// reading plus the whole timeout, never earlier than the reading's
/// milliseconds plus the timeout's; a zero timeout gives the reading's own
/// milliseconds.
pub proof fn lemma_deadline_covers_timeout(now_nanos: nat, timeout_nanos: nat)
    requires
        (now_nanos + timeout_nanos) / 1_000_000 <= u64::MAX,
    ensures
        deadline_after(now_nanos, timeout_nanos) == Some(
            ((now_nanos + timeout_nanos) / 1_000_000) as u64,
        ),
        ((now_nanos + timeout_nanos) / 1_000_000) as u64 >= now_nanos / 1_000_000 + timeout_nanos
            / 1_000_000,
        timeout_nanos == 0 ==> deadline_after(now_nanos, timeout_nanos) == Some(
            (now_nanos / 1_000_000) as u64,
        ),
{
    let total = now_nanos + timeout_nanos;
    assert(total / 1_000_000_000 <= total / 1_000_000) by (nonlinear_arith);
    assert(total / 1_000_000 >= now_nanos / 1_000_000 + timeout_nanos / 1_000_000)
        by (nonlinear_arith)
        requires
            total == now_nanos + timeout_nanos,
    ;
}

/// The deadline that `timeout` gives when the clock reads `now_nanos`
/// nanoseconds since the Unix epoch.
pub fn deadline_after_nanos(now_nanos: u128, timeout: Duration) -> (deadline: Option<u64>)
    ensures
        deadline == deadline_after(now_nanos as nat, duration_nanos(timeout) as nat),
{
    let timeout_nanos = duration_as_nanos(timeout);
    match now_nanos.checked_add(timeout_nanos) {
        None => {
            assert((now_nanos + timeout_nanos) / 1_000_000_000 > u64::MAX) by (nonlinear_arith)
                requires
                    now_nanos + timeout_nanos > u128::MAX,
            ;
            None
        },
        Some(total) => {
            if total / 1_000_000_000 > u64::MAX as u128 {
                None
            } else {
                Some(millis_to_u64(total / 1_000_000))
            }
        },
    }
}

/// The whole milliseconds of a clock reading in nanoseconds since the Unix
/// epoch, narrowed to a `u64`; no reading gives none.
pub open spec fn millis_of_reading(reading: Option<u128>) -> Option<u64> {
    match reading {
        Some(n) => Some((n / 1_000_000) as u64),
        None => None,
    }
}

/// Turns a clock reading in nanoseconds since the Unix epoch into whole
/// milliseconds, narrowed to a `u64`.
pub fn epoch_millis(reading: Option<u128>) -> (ms: Option<u64>)
    ensures
        ms == millis_of_reading(reading),
{
    match reading {
        Some(n) => Some(millis_to_u64(n / 1_000_000)),
        None => None,
    }
}

/// Milliseconds since the Unix epoch, by the system clock, narrowed to a
/// `u64`; `None` when the clock reads before the epoch. It is
/// [`epoch_millis`] of the reading that [`epoch_now_nanos`] gives.
pub fn now_epoch_ms() -> (ms: Option<u64>)
    ensures
        exists|reading: Option<u128>| ms == #[trigger] millis_of_reading(reading),
        exists|r: ClockReading| ms == millis_of_reading(#[trigger] r.nanos_since_epoch()),
{
    let reading = read_clock();
    epoch_millis(reading.nanos())
}

/// The moment, in milliseconds since the Unix epoch, at which `timeout` from
/// now has passed: [`deadline_after`] of the clock reading and the timeout;
/// `None` also when the clock reads before the epoch.
pub fn deadline_from_now(timeout: Duration) -> (deadline: Option<u64>)
    ensures
        deadline is None || exists|now_nanos: u128|
            deadline == #[trigger] deadline_after(now_nanos as nat, duration_nanos(timeout) as nat),
        exists|r: ClockReading| deadline == deadline_for(Some(timeout), #[trigger] r.nanos_since_epoch()),
{
    let reading = read_clock();
    match reading.nanos() {
        Some(now) => deadline_after_nanos(now, timeout),
        None => None,
    }
}

/// A lower-case hexadecimal digit.
pub open spec fn lower_hex_digit(c: char) -> bool {
    ('0' <= c && c <= '9') || ('a' <= c && c <= 'f')
}

/// The hyphenated text of a random (version 4) UUID: 36 characters, hyphens
/// at 8, 13, 18 and 23, lower-case hex digits elsewhere, the version digit
/// `4`, and a variant digit among `8`, `9`, `a`, `b`.
pub open spec fn uuid_v4_text(s: Seq<char>) -> bool {
    &&& s.len() == 36
    &&& forall|i: int|
        0 <= i < 36 ==> if i == 8 || i == 13 || i == 18 || i == 23 {
            #[trigger] s[i] == '-'
        } else {
            lower_hex_digit(s[i])
        }
    &&& s[14] == '4'
    &&& (s[19] == '8' || s[19] == '9' || s[19] == 'a' || s[19] == 'b')
}

/// `Uuid::new_v4` from the uuid crate, written out with `to_string`. The
/// value is random; what holds of every outcome is its shape, which the
/// crate's formatting code fixes: 36 characters in the hyphenated lower-case
/// form, with the version and variant bits that `new_v4` sets.
#[verifier::external_body]
fn fresh_uuid_text() -> (text: String)
    ensures
        uuid_v4_text(text@),
{
    uuid::Uuid::new_v4().to_string()
}

/// The deadline a request carries: none without a timeout or a clock
/// reading, else [`deadline_after`] of the reading and the timeout.
pub open spec fn deadline_for(timeout: Option<Duration>, now_nanos: Option<u128>) -> Option<u64> {
    match (timeout, now_nanos) {
        (Some(t), Some(n)) => deadline_after(n as nat, duration_nanos(t) as nat),
        _ => None,
    }
}

/// The request envelope for one call when the clock reads `now_nanos`
/// nanoseconds since the Unix epoch (`None`: before the epoch): a fresh
/// request id, the method and the encoded request, the deadline that the
/// timeout gives from that reading, and the caller's trace id or else a
/// fresh one.
pub fn build_request_envelope_at(
    method: &str,
    payload: Vec<u8>,
    options: CallOptions,
    now_nanos: Option<u128>,
) -> (request: RequestEnvelope)
    ensures
        request.version == PROTOCOL_VERSION,
        request.message_type == MessageType::Request,
        uuid_v4_text(request.request_id@),
        request.method@ == method@,
        request.payload@ == payload@,
        request.deadline_ms == deadline_for(options.timeout, now_nanos),
        request.trace_id matches Some(t) && match options.trace_id {
            Some(given) => t@ == given@,
            None => uuid_v4_text(t@),
        },
        request.metadata is None,
        request_well_formed(request) <==> (method@.len() > 0 && payload@.len() > 0),
{
    let request_id = fresh_uuid_text();
    let deadline_ms = match (options.timeout, now_nanos) {
        (Some(timeout), Some(now)) => deadline_after_nanos(now, timeout),
        _ => None,
    };
    let trace_id = match options.trace_id {
        Some(given) => given,
        None => fresh_uuid_text(),
    };
    RequestEnvelope {
        version: PROTOCOL_VERSION,
        message_type: MessageType::Request,
        request_id,
        method: method.to_owned(),
        deadline_ms,
        trace_id: Some(trace_id),
        payload,
        metadata: None,
    }
}

/// The request envelope for one call, its deadline taken from the system
/// clock, which is read only when the call has a timeout: as
/// [`build_request_envelope_at`] for the reading of the clock taken by the
/// call.
pub fn build_request_envelope(method: &str, payload: Vec<u8>, options: CallOptions) -> (request:
    RequestEnvelope)
    ensures
        request.version == PROTOCOL_VERSION,
        request.message_type == MessageType::Request,
        uuid_v4_text(request.request_id@),
        request.method@ == method@,
        request.payload@ == payload@,
        options.timeout is None ==> request.deadline_ms is None,
        exists|now_nanos: Option<u128>| request.deadline_ms == #[trigger] deadline_for(
            options.timeout,
            now_nanos,
        ),
        options.timeout is Some ==> exists|r: ClockReading| request.deadline_ms == deadline_for(
            options.timeout,
            #[trigger] r.nanos_since_epoch(),
        ),
        request.trace_id matches Some(t) && match options.trace_id {
            Some(given) => t@ == given@,
            None => uuid_v4_text(t@),
        },
        request.metadata is None,
        request_well_formed(request) <==> (method@.len() > 0 && payload@.len() > 0),
{
    let now_nanos = match options.timeout {
        Some(_) => {
            let reading = read_clock();
            reading.nanos()
        },
        None => None,
    };
    build_request_envelope_at(method, payload, options, now_nanos)
}

/// What a call comes to when the server sent `r`: its payload on success;
/// a protocol error when the envelope breaks the rules or the server
/// reports `invalid_request`; a remote error for any other code.
pub open spec fn response_outcome(r: ResponseEnvelope) -> Result<Seq<u8>, ErrorView> {
    match response_violation(r) {
        Some(reason) => Err(ErrorView::Protocol(INVALID_REQUEST@, reason)),
        None => match r.error {
            Some(e) => if e.code@ == INVALID_REQUEST@ {
                Err(ErrorView::Protocol(e.code@, e.message@))
            } else {
                Err(ErrorView::Remote(e.code@, e.message@))
            },
            None => match r.payload {
                Some(p) => Ok(p@),
                None => Err(
                    ErrorView::Protocol(INVALID_REQUEST@, "successful response missing payload"@),
                ),
            },
        },
    }
}

/// Law: for a response with version 1, of the response kind and with a
/// request id, that succeeded with a payload and no error, the call's
/// result is that payload; one that failed with an error and no payload
/// ends in that error's code and message, as a protocol error for
/// `invalid_request` and a remote error otherwise. The trace id, the
/// error's details and the metadata play no part.
pub proof fn lemma_response_outcome_fields(r: ResponseEnvelope)
    requires
        r.version == 1,
        r.message_type == MessageType::Response,
        r.request_id@.len() > 0,
    ensures
        r.ok && r.error is None && r.payload is Some ==> response_outcome(r) == Ok::<
            Seq<u8>,
            ErrorView,
        >(r.payload->Some_0@),
        !r.ok && r.payload is None && r.error is Some ==> response_outcome(r) == if r.error->Some_0.code@
            == INVALID_REQUEST@ {
            Err::<Seq<u8>, ErrorView>(
                ErrorView::Protocol(r.error->Some_0.code@, r.error->Some_0.message@),
            )
        } else {
            Err::<Seq<u8>, ErrorView>(
                ErrorView::Remote(r.error->Some_0.code@, r.error->Some_0.message@),
            )
        },
{
}

/// Law: two responses that agree on version, kind, request id, success,
/// payload, and error code and message come to the same call result,
/// whatever their trace ids, error details and metadata.
pub proof fn lemma_response_outcome_ignores_extras(a: ResponseEnvelope, b: ResponseEnvelope)
    requires
        a.version == b.version,
        a.message_type == b.message_type,
        a.request_id@ == b.request_id@,
        a.ok == b.ok,
        match (a.payload, b.payload) {
            (Some(p), Some(q)) => p@ == q@,
            (None, None) => true,
            _ => false,
        },
        match (a.error, b.error) {
            (Some(e), Some(f)) => e.code@ == f.code@ && e.message@ == f.message@,
            (None, None) => true,
            _ => false,
        },
    ensures
        response_outcome(a) == response_outcome(b),
{
}

/// A call's result with its bytes and texts taken as sequences.
pub open spec fn result_view(res: Result<Vec<u8>, Error>) -> Result<Seq<u8>, ErrorView> {
    match res {
        Ok(p) => Ok(p@),
        Err(e) => Err(e@),
    }
}

/// Reads the server's answer into the call's result: the response payload,
/// or the error the call fails with. `decoded` is the response envelope, or
/// the codec error that stopped its frame or document from being read.
pub fn interpret_response(decoded: Result<ResponseEnvelope, CodecError>) -> (res: Result<
    Vec<u8>,
    Error,
>)
    ensures
        result_view(res) == match decoded {
            Err(c) => Err(ErrorView::Protocol(INVALID_REQUEST@, codec_error_text(c))),
            Ok(r) => response_outcome(r),
        },
{
    let response = match decoded {
        Ok(response) => response,
        Err(c) => return Err(codec_error_to_protocol(c)),
    };
    match response.validate() {
        Ok(()) => {},
        Err(reason) => {
            return Err(
                Error::Protocol { code: INVALID_REQUEST.to_owned(), message: reason.to_owned() },
            );
        },
    }
    if let Some(error) = response.error {
        let invalid = INVALID_REQUEST.to_owned();
        if error.code == invalid {
            return Err(Error::Protocol { code: error.code, message: error.message });
        }
        return Err(Error::Remote { code: error.code, message: error.message });
    }
    match response.payload {
        Some(payload) => Ok(payload),
        None => Err(
            Error::Protocol {
                code: INVALID_REQUEST.to_owned(),
                message: "successful response missing payload".to_owned(),
            },
        ),
    }
}

/// The error a call fails with when the response payload does not decode
/// into the type the caller expects.
pub fn response_payload_undecodable() -> (e: Error)
    ensures
        e@ == ErrorView::Decode("failed to decode response payload"@),
{
    Error::Decode { message: "failed to decode response payload".to_owned() }
}

/// The wire error code that an error carries, if it carries one.
pub fn error_code_of(error: &Error) -> (code: Option<&str>)
    ensures
        match error@ {
            ErrorView::Protocol(c, _) => code matches Some(s) && s@ == c,
            ErrorView::Remote(c, _) => code matches Some(s) && s@ == c,
            _ => code is None,
        },
{
    match error {
        Error::Protocol { code, .. } => Some(code.as_str()),
        Error::Remote { code, .. } => Some(code.as_str()),
        _ => None,
    }
}

/// The client's connection: none, or one stream ready for the next call.
pub enum ClientState<S> {
    Disconnected,
    Connected(S),
}

/// A client starts without a connection; it connects on its first call.
pub fn client_state_default<S>() -> (state: ClientState<S>)
    ensures
        state is Disconnected,
{
    ClientState::Disconnected
}

/// Whether the next call has to open a connection first.
pub fn needs_connection<S>(state: &ClientState<S>) -> (needed: bool)
    ensures
        needed == (*state is Disconnected),
{
    match state {
        ClientState::Disconnected => true,
        ClientState::Connected(_) => false,
    }
}

/// How one exchange on the connection ended.
pub enum ExchangeOutcome {
    /// The request was written and this response frame read back.
    Completed(Vec<u8>),
    /// Writing or reading failed with this error.
    Failed(Error),
    /// The call's timeout ran out first.
    TimedOut,
}

/// The connection left after an exchange ended with `outcome`: the same one
/// when the exchange completed, none otherwise.
pub open spec fn state_after<S>(before: ClientState<S>, outcome: ExchangeOutcome) -> ClientState<S> {
    match outcome {
        ExchangeOutcome::Completed(_) => before,
        _ => ClientState::Disconnected,
    }
}

/// Settles the connection after an exchange and gives the exchange's result.
/// A completed exchange keeps the connection for the next call; a failed or
/// timed-out one drops it, so that the next call opens a new one. Nothing is
/// ever sent again: a timed-out request is not retried.
pub fn settle_exchange<S>(state: &mut ClientState<S>, outcome: ExchangeOutcome) -> (res: Result<
    Vec<u8>,
    Error,
>)
    ensures
        match outcome {
            ExchangeOutcome::Completed(frame) => res == Ok::<Vec<u8>, Error>(frame) && *final(state)
                == *old(state),
            ExchangeOutcome::Failed(e) => res == Err::<Vec<u8>, Error>(e) && *final(state) is Disconnected,
            ExchangeOutcome::TimedOut => res == Err::<Vec<u8>, Error>(Error::Timeout)
                && *final(state) is Disconnected,
        },
        *final(state) == state_after(*old(state), outcome),
{
    match outcome {
        ExchangeOutcome::Completed(frame) => Ok(frame),
        ExchangeOutcome::Failed(e) => {
            *state = ClientState::Disconnected;
            Err(e)
        },
        ExchangeOutcome::TimedOut => {
            *state = ClientState::Disconnected;
            Err(Error::Timeout)
        },
    }
}

/// The socket path of a Unix runtime's address; other addresses cannot be
/// served or reached over Unix sockets.
pub fn unix_socket_path(addr: &IpcAddress) -> (path: Result<&PathBuf, Error>)
    ensures
        match *addr {
            IpcAddress::UnixSocket(p) => path == Ok::<&PathBuf, Error>(&p),
            IpcAddress::NamedPipe(_) => path matches Err(e) && e@ == ErrorView::ConnectFailed(
                "unix runtime requires unix socket address"@,
            ),
        },
{
    match addr {
        IpcAddress::UnixSocket(path) => Ok(path),
        IpcAddress::NamedPipe(_) => Err(
            Error::ConnectFailed { message: "unix runtime requires unix socket address".to_owned() },
        ),
    }
}

/// The operating-system error code of a named pipe whose instances are all busy.
pub const PIPE_BUSY: i32 = 231;

/// Whether a failure to open a named pipe is one that waiting can cure: the
/// pipe does not exist yet, or all its instances are busy.
pub fn open_failure_retryable(not_found: bool, os_error: Option<i32>) -> (retryable: bool)
    ensures
        retryable == (not_found || os_error == Some(PIPE_BUSY)),
{
    not_found || match os_error {
        Some(code) => code == PIPE_BUSY,
        None => false,
    }
}

/// How many times a client tries to open a named pipe before it gives up.
pub const MAX_OPEN_ATTEMPTS: usize = 50;

/// Whether a client that failed to open a named pipe on attempt `attempt`
/// (counted from 0) tries again: only when the failure is one that waiting
/// can cure (the pipe is absent or busy) and attempts remain.
pub fn retry_open(attempt: usize, retryable: bool) -> (again: bool)
    ensures
        again == (retryable && attempt + 1 < MAX_OPEN_ATTEMPTS),
{
    retryable && attempt < MAX_OPEN_ATTEMPTS - 1
}

} // verus!

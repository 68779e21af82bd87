//! The correlated request/response protocol: inbound requests tagged with a
//! payload and a request id, typed responses echoing the id, and the error
//! taxonomy with its transport status mapping.
use vstd::prelude::*;
use vstd::string::StringExecFns;
use base64::Engine;
use crate::commitments::DecodeError;
use crate::encode::{json_string_of, push_json_string};
use crate::hexstr::{is_hex_char, push_char};
use crate::status::Status;

verus! {

/// Marker for an internal failure surfaced to the transport layer, which
/// carries no payload of its own.
#[derive(Debug)]
pub struct InternalServerError {}

/// The version payload of a version response.
pub struct Version {
    pub version: String,
    pub network_version: String,
}

/// The id under which one registry entry was created, echoed to the client.
pub struct SubscriptionId {
    pub subscription_id: String,
}

/// Names what base64's standard-alphabet engine makes of an input: the
/// decoded bytes for a valid encoding, nothing for any other string. Both
/// the outcome and the bytes are a function of the input characters alone.
pub uninterp spec fn base64_decoding(s: Seq<char>) -> Option<Seq<u8>>;

/// Relies on base64's STANDARD engine: standard-alphabet decoding with
/// padding, succeeding exactly on valid encodings.
#[verifier::external_body]
fn base64_decode(value: &String) -> (r: Option<Vec<u8>>)
    ensures
        r is Some <==> base64_decoding(value@) is Some,
        r matches Some(b) ==> Some(b@) == base64_decoding(value@),
{
    match base64::engine::general_purpose::STANDARD.decode(value.as_str()) {
        Ok(b) => Some(b),
        Err(_) => None,
    }
}

/// A decoded transaction payload.
#[derive(Debug)]
pub struct Base64(pub Vec<u8>);

impl Base64 {
    /// Decodes a standard-alphabet base64 string: succeeds exactly on valid
    /// encodings, and an invalid one is a typed error, never a partial
    /// decode.
    pub fn try_from(value: String) -> (r: Result<Base64, DecodeError>)
        ensures
            r is Ok <==> base64_decoding(value@) is Some,
            r matches Ok(b) ==> Some(b.0@) == base64_decoding(value@),
            r is Err ==> r == Err::<Base64, DecodeError>(DecodeError::Base64),
    {
        match base64_decode(&value) {
            Some(b) => Ok(Base64(b)),
            None => Err(DecodeError::Base64),
        }
    }
}

/// A transaction handed in for submission, as raw data or as an encoded
/// extrinsic.
#[derive(Debug)]
pub enum Transaction {
    Data(Base64),
    Extrinsic(Base64),
}

/// The bytes a transaction carries, whichever kind it is.
pub open spec fn transaction_bytes(t: Transaction) -> Seq<u8> {
    match t {
        Transaction::Data(b) => b.0@,
        Transaction::Extrinsic(b) => b.0@,
    }
}

impl Transaction {
    /// True exactly when the carried payload has no bytes.
    pub fn is_empty(&self) -> (r: bool)
        ensures
            r == (transaction_bytes(*self).len() == 0),
    {
        match self {
            Transaction::Data(data) => data.0.is_empty(),
            Transaction::Extrinsic(data) => data.0.is_empty(),
        }
    }
}

/// The acknowledgment of a submitted transaction.
pub struct SubmitResponse {
    pub block_hash: crate::header::H256,
    pub hash: crate::header::H256,
    pub index: u32,
}

/// What an inbound request asks for.
#[derive(Debug)]
pub enum Payload {
    Version,
    Status,
    Submit(Transaction),
}

/// One inbound request: its payload and the id that correlates the answer.
#[derive(Debug)]
pub struct Request {
    pub payload: Payload,
    pub request_id: uuid::Uuid,
}

/// A typed response, echoing the request id it answers.
pub struct Response<T> {
    pub request_id: uuid::Uuid,
    pub message: T,
}

impl<T> Response<T> {
    pub fn new(request_id: uuid::Uuid, message: T) -> (r: Response<T>)
        ensures
            r.request_id == request_id,
            r.message == message,
    {
        Response { request_id, message }
    }
}

/// The error taxonomy of the protocol.
#[derive(Debug, Clone, Copy, PartialEq, Eq, Structural)]
pub enum ErrorCode {
    NotFound,
    BadRequest,
    InternalServerError,
}

/// A typed error: the request id when one was parsed, the code, the message
/// shown to the client, and an internal-only diagnostic cause never
/// serialized to it.
#[derive(Debug)]
pub struct Error {
    pub request_id: Option<uuid::Uuid>,
    pub cause: Option<String>,
    pub error_code: ErrorCode,
    pub message: String,
}

impl Error {
    fn new(
        request_id: Option<uuid::Uuid>,
        cause: Option<String>,
        error_code: ErrorCode,
        message: &str,
    ) -> (r: Error)
        ensures
            r.request_id == request_id,
            r.cause == cause,
            r.error_code == error_code,
            r.message@ == message@,
    {
        Error { request_id, cause, error_code, message: String::from_str(message) }
    }

    /// A missing route or resource; never used for data-decode problems.
    pub fn not_found() -> (r: Error)
        ensures
            r.request_id is None,
            r.cause is None,
            r.error_code == ErrorCode::NotFound,
            r.message@ == "Not Found"@,
    {
        Self::new(None, None, ErrorCode::NotFound, "Not Found")
    }

    /// An unexpected internal failure: the cause is kept for server-side
    /// diagnostics only, and the client sees a fixed generic message.
    pub fn internal_server_error(cause: String) -> (r: Error)
        ensures
            r.request_id is None,
            r.cause == Some(cause),
            r.error_code == ErrorCode::InternalServerError,
            r.message@ == "Internal Server Error"@,
    {
        Self::new(None, Some(cause), ErrorCode::InternalServerError, "Internal Server Error")
    }

    /// A malformed request from which no request id could be extracted: the
    /// only error without a correlation id by design.
    pub fn bad_request_unknown(message: &str) -> (r: Error)
        ensures
            r.request_id is None,
            r.cause is None,
            r.error_code == ErrorCode::BadRequest,
            r.message@ == message@,
    {
        Self::new(None, None, ErrorCode::BadRequest, message)
    }

    /// A semantically invalid request, echoing its parsed request id.
    pub fn bad_request(request_id: uuid::Uuid, message: &str) -> (r: Error)
        ensures
            r.request_id == Some(request_id),
            r.cause is None,
            r.error_code == ErrorCode::BadRequest,
            r.message@ == message@,
    {
        Self::new(Some(request_id), None, ErrorCode::BadRequest, message)
    }

    /// The client-facing error envelope: the request id when one was
    /// parsed, then the code and the message. The internal cause is
    /// deliberately absent, whatever it holds.
    pub fn to_json(&self) -> (r: String)
        ensures
            self.request_id is None ==> r@ == json_of_error(None, self.error_code, self.message@),
            self.request_id is Some ==> exists|t: Seq<char>|
                t.len() == 36 && r@ == json_of_error(Some(t), self.error_code, self.message@),
    {
        let mut out = String::new();
        push_char(&mut out, '{');
        let ghost mut rid_text: Seq<char> = Seq::empty();
        match &self.request_id {
            Some(u) => {
                out.append("\"request_id\":\"");
                let t = uuid_string(u);
                out.append(t.as_str());
                out.append("\",");
                proof {
                    rid_text = t@;
                    assert(out@ =~= seq!['{'] + "\"request_id\":\""@ + rid_text + "\","@);
                }
            },
            None => {},
        }
        out.append("\"error_code\":\"");
        out.append(error_code_str(&self.error_code));
        out.append("\",\"message\":");
        push_json_string(&mut out, self.message.as_str());
        push_char(&mut out, '}');
        proof {
            if self.request_id is Some {
                assert(out@ =~= json_of_error(Some(rid_text), self.error_code, self.message@));
                assert(rid_text.len() == 36);
            } else {
                assert(out@ =~= json_of_error(None, self.error_code, self.message@));
            }
        }
        out
    }

    /// The transport status the error maps to.
    pub fn status(&self) -> (r: u16)
        ensures
            self.error_code == ErrorCode::NotFound ==> r == 404,
            self.error_code == ErrorCode::BadRequest ==> r == 400,
            self.error_code == ErrorCode::InternalServerError ==> r == 500,
    {
        match self.error_code {
            ErrorCode::NotFound => 404,
            ErrorCode::BadRequest => 400,
            ErrorCode::InternalServerError => 500,
        }
    }
}

/// The kebab-case name of an error code on the wire.
pub open spec fn error_code_json(c: ErrorCode) -> Seq<char> {
    match c {
        ErrorCode::NotFound => "not-found"@,
        ErrorCode::BadRequest => "bad-request"@,
        ErrorCode::InternalServerError => "internal-server-error"@,
    }
}

fn error_code_str(c: &ErrorCode) -> (r: &'static str)
    ensures
        r@ == error_code_json(*c),
{
    match c {
        ErrorCode::NotFound => "not-found",
        ErrorCode::BadRequest => "bad-request",
        ErrorCode::InternalServerError => "internal-server-error",
    }
}

/// The error envelope: the request id field only when an id was parsed, the
/// code, and the escaped message — and no other field, so the internal
/// cause can never reach the client.
pub open spec fn json_of_error(rid: Option<Seq<char>>, code: ErrorCode, message: Seq<char>) -> Seq<
    char,
> {
    seq!['{'] + (match rid {
        Some(t) => "\"request_id\":\""@ + t + "\","@,
        None => Seq::empty(),
    }) + "\"error_code\":\""@ + error_code_json(code) + "\",\"message\":"@ + json_string_of(
        message,
    ) + seq!['}']
}

/// Relies on uuid's hyphenated Display form: 36 characters, lowercase hex
/// and hyphens.
#[verifier::external_body]
fn uuid_string(u: &uuid::Uuid) -> (r: String)
    ensures
        r@.len() == 36,
        forall|i: int| 0 <= i < r@.len() ==> (r@[i] == '-' || is_hex_char(#[trigger] r@[i])),
{
    format!("{}", u)
}

/// A payload that is a submit of an empty transaction.
pub open spec fn is_empty_submit(p: Payload) -> bool {
    match p {
        Payload::Submit(t) => transaction_bytes(t).len() == 0,
        _ => false,
    }
}

/// The received stage of the protocol: a message that did not parse becomes
/// a bad request without a correlation id; a submit of an empty transaction
/// is rejected, echoing its id, before any handler runs; everything else is
/// handed on for dispatch untouched.
pub fn screen_request(parsed: Option<Request>) -> (r: Result<Request, Error>)
    ensures
        parsed is None ==> (r matches Err(e) && e.error_code == ErrorCode::BadRequest
            && e.request_id is None && e.cause is None && e.message@ == "Cannot parse json"@),
        parsed matches Some(q) ==> ((is_empty_submit(q.payload) ==> (r matches Err(e)
            && e.error_code == ErrorCode::BadRequest && e.request_id == Some(q.request_id)
            && e.cause is None && e.message@ == "Transaction is empty"@)) && (!is_empty_submit(
            q.payload,
        ) ==> r == Ok::<Request, Error>(q))),
{
    match parsed {
        None => Err(Error::bad_request_unknown("Cannot parse json")),
        Some(q) => {
            let empty = match &q.payload {
                Payload::Submit(t) => t.is_empty(),
                _ => false,
            };
            if empty {
                Err(Error::bad_request(q.request_id, "Transaction is empty"))
            } else {
                Ok(q)
            }
        },
    }
}

/// A typed success answer on its way to the transport.
pub enum WsResponse {
    Version(Response<Version>),
    Status(Response<Status>),
    DataTransactionSubmitted(Response<SubmitResponse>),
}

/// A typed error answer on its way to the transport.
pub enum WsError {
    Error(Error),
}

} // verus!

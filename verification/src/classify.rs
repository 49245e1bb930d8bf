//! Deciding the outcome of a unary HTTP exchange.
//!
//! Every exchange ends in exactly one of three ways: the status code is
//! accepted and the raw body is the success payload; the status code is
//! not accepted and the body (when present) decodes to a structured error
//! payload; or the exchange produced nothing well-formed, a transport
//! failure. Which status codes count as success differs between
//! deployments, so the accepted set is an explicit policy value handed to
//! the classifier, never a scattering of conditionals.

use vstd::prelude::*;
use crate::json::{json_model, json_of, parse_json};

verus! {

/// A transport-level fault: the exchange produced no well-formed outcome.
#[derive(Debug)]
pub enum TransportError {
    /// A body that had to be parsed was not one valid JSON document.
    MalformedBody,
    /// The connection, protocol or TLS layer failed; the message comes
    /// from the network library.
    Network(String),
}

/// The three-way outcome of a unary HTTP exchange. Exactly one variant
/// holds.
pub enum ClassifiedResponse {
    /// An accepted status: the raw body bytes, untouched.
    Success(Vec<u8>),
    /// A well-formed rejection: the status code, and the decoded error
    /// payload when the body was non-empty.
    ApplicationError(u16, Option<serde_json::Value>),
    /// No well-formed outcome.
    TransportFailure(TransportError),
}

/// A rejection as the caller sees it: the status code and the error
/// payload the server sent with it, `None` when the body was empty.
pub struct ApiError {
    /// The status code the server answered with.
    pub code: u16,
    /// The structured error payload, when the server sent one.
    pub msg: Option<serde_json::Value>,
}

impl ApiError {
    /// Packs a rejected status code with its decoded payload.
    pub fn new(code: u16, msg: Option<serde_json::Value>) -> (e: ApiError)
        ensures
            e.code == code,
            e.msg == msg,
    {
        ApiError { code, msg }
    }
}

/// The set of status codes that denote success, as one explicit value.
pub struct StatusPolicy {
    accepted: Vec<u16>,
}

impl StatusPolicy {
    /// The status codes this policy accepts as success.
    pub closed spec fn accepted_codes(self) -> Seq<u16> {
        self.accepted@
    }

    /// Whether a status code denotes success under this policy.
    pub open spec fn spec_accepts(self, status: u16) -> bool {
        self.accepted_codes().contains(status)
    }

    /// A policy accepting exactly the given status codes.
    pub fn new(accepted: Vec<u16>) -> (p: Self)
        ensures
            p.accepted_codes() == accepted@,
    {
        StatusPolicy { accepted }
    }

    /// The policy of this client: ok and created denote success.
    pub fn default_policy() -> (p: Self)
        ensures
            p.accepted_codes() == seq![200u16, 201u16],
    {
        let mut accepted: Vec<u16> = Vec::new();
        accepted.push(200);
        accepted.push(201);
        proof {
            assert(accepted@ =~= seq![200u16, 201u16]);
        }
        StatusPolicy { accepted }
    }

    /// Decides whether a status code denotes success under this policy.
    pub fn accepts(&self, status: u16) -> (r: bool)
        ensures
            r == self.spec_accepts(status),
    {
        let mut i: usize = 0;
        while i < self.accepted.len()
            invariant
                i <= self.accepted.len(),
                forall|j: int| 0 <= j < i ==> self.accepted@[j] != status,
            decreases self.accepted.len() - i,
        {
            if self.accepted[i] == status {
                return true;
            }
            i = i + 1;
        }
        false
    }
}

/// Classifies one exchange from its status code and raw body.
///
/// An accepted status carries the body through untouched. A rejected
/// status with an empty body carries no payload; with a non-empty body,
/// the body must decode as one JSON document, which becomes the payload —
/// a body that does not decode is itself a decoding fault and surfaces as
/// a transport failure, never silently and never as a crash.
pub fn classify(policy: &StatusPolicy, status: u16, body: Vec<u8>) -> (r: ClassifiedResponse)
    ensures
        policy.spec_accepts(status) ==> (r matches ClassifiedResponse::Success(b) && b@ == body@),
        !policy.spec_accepts(status) && body@.len() == 0 ==> r
            == ClassifiedResponse::ApplicationError(status, None::<serde_json::Value>),
        !policy.spec_accepts(status) && body@.len() > 0 ==> match json_of(body@) {
            Some(m) => (r matches ClassifiedResponse::ApplicationError(s, Some(v)) && s == status
                && json_model(v) == m),
            None => r == ClassifiedResponse::TransportFailure(TransportError::MalformedBody),
        },
{
    if policy.accepts(status) {
        ClassifiedResponse::Success(body)
    } else if body.len() == 0 {
        ClassifiedResponse::ApplicationError(status, None)
    } else {
        match parse_json(body.as_slice()) {
            Some(v) => ClassifiedResponse::ApplicationError(status, Some(v)),
            None => ClassifiedResponse::TransportFailure(TransportError::MalformedBody),
        }
    }
}

/// Parses a unary success body as one JSON document. A body that is not
/// valid JSON is a decoding fault at the transport level.
pub fn decode_document(body: &[u8]) -> (r: Result<serde_json::Value, TransportError>)
    ensures
        match r {
            Ok(v) => json_of(body@) == Some(json_model(v)),
            Err(e) => json_of(body@) is None && e == TransportError::MalformedBody,
        },
{
    match parse_json(body) {
        Some(v) => Ok(v),
        None => Err(TransportError::MalformedBody),
    }
}

} // verus!

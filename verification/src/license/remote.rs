//! What is exchanged with the entitlement authority: where each call goes,
//! what it carries, and what may come back.
//!
//! The host performs the exchange. It is handed an [`Endpoint`] and a request
//! and hands back a reply, in which every way the exchange can end is one
//! case.

use crate::license::types::{ActivationResponse, ActivationResponseView};
use vstd::prelude::*;

verus! {

/// Seconds that a validation call may take before it counts as unanswered.
pub const VALIDATION_TIMEOUT_SECS: u64 = 10;

/// The member of a renewal answer that holds the new expiry.
pub const NEW_EXPIRATION_MEMBER: &'static str = "newExpirationDate";

/// The HTTP method of a call.
#[derive(Clone, Copy, Debug, PartialEq, Eq, Structural)]
pub enum Method {
    Post,
    Put,
}

/// Where a call to the authority goes.
#[derive(Debug, PartialEq, Eq)]
pub struct Endpoint {
    pub method: Method,
    pub url: String,
    /// The time the call may take, in seconds; `None` leaves it to the
    /// transport.
    pub timeout_secs: Option<u64>,
}

/// An endpoint as plain values.
pub struct EndpointView {
    pub method: Method,
    pub url: Seq<char>,
    pub timeout_secs: Option<u64>,
}

impl View for Endpoint {
    type V = EndpointView;

    open spec fn view(&self) -> EndpointView {
        EndpointView { method: self.method, url: self.url@, timeout_secs: self.timeout_secs }
    }
}

/// What a validation call carries.
#[derive(Debug, PartialEq, Eq)]
pub struct ValidationRequest {
    pub key: String,
    pub machine_code: String,
}

/// A validation request as plain values.
pub struct ValidationRequestView {
    pub key: Seq<char>,
    pub machine_code: Seq<char>,
}

impl View for ValidationRequest {
    type V = ValidationRequestView;

    open spec fn view(&self) -> ValidationRequestView {
        ValidationRequestView { key: self.key@, machine_code: self.machine_code@ }
    }
}

/// What a renewal call carries.
#[derive(Debug, PartialEq, Eq)]
pub struct RenewalRequest {
    pub key: String,
}

/// A renewal request as plain values.
pub struct RenewalRequestView {
    pub key: Seq<char>,
}

impl View for RenewalRequest {
    type V = RenewalRequestView;

    open spec fn view(&self) -> RenewalRequestView {
        RenewalRequestView { key: self.key@ }
    }
}

/// How an activation call ended.
#[derive(Debug, PartialEq, Eq)]
pub enum ActivationReply {
    /// No answer came.
    Unreachable,
    /// The authority answered with a status other than success. Holds the
    /// body as text, where it could be read.
    Refused(Option<String>),
    /// The authority answered with success and a body that is no activation
    /// answer.
    Malformed,
    /// The authority answered with success.
    Answer(ActivationResponse),
}

/// An activation reply as plain values.
pub enum ActivationReplyView {
    Unreachable,
    Refused(Option<Seq<char>>),
    Malformed,
    Answer(ActivationResponseView),
}

impl View for ActivationReply {
    type V = ActivationReplyView;

    open spec fn view(&self) -> ActivationReplyView {
        match self {
            ActivationReply::Unreachable => ActivationReplyView::Unreachable,
            ActivationReply::Refused(body) => ActivationReplyView::Refused(
                match body {
                    Some(text) => Some(text@),
                    None => None,
                },
            ),
            ActivationReply::Malformed => ActivationReplyView::Malformed,
            ActivationReply::Answer(answer) => ActivationReplyView::Answer(answer@),
        }
    }
}

/// How a validation call ended. Only the status of the answer counts.
#[derive(Clone, Copy, Debug, PartialEq, Eq, Structural)]
pub enum ValidationReply {
    /// No answer came in time.
    Unreachable,
    /// The authority answered with a status other than success.
    Refused,
    /// The authority answered with success.
    Confirmed,
}

/// `serde_json::Value`, a JSON document. Nothing inside it is visible here;
/// what the rules read of it, they name below.
#[verifier::external_type_specification]
#[verifier::external_body]
pub struct ExJsonValue(serde_json::Value);

/// The members of a JSON document that are text, by name. Empty where the
/// document is no object.
pub uninterp spec fn json_text_members(document: serde_json::Value) -> Map<Seq<char>, Seq<char>>;

/// Calls `serde_json::Value::get` with a name, and `Value::as_str` on what it
/// finds.
///
/// Trusted: that the result is the member of that name where the document is
/// an object that has it and the member is a string, and `None` otherwise.
#[verifier::external_body]
pub(crate) fn text_member(document: &serde_json::Value, name: &str) -> (text: Option<String>)
    ensures
        text is Some <==> json_text_members(*document).contains_key(name@),
        text matches Some(t) ==> t@ == json_text_members(*document)[name@],
{
    match document.get(name) {
        Some(member) => match member.as_str() {
            Some(text) => Some(text.to_string()),
            None => None,
        },
        None => None,
    }
}

/// How a renewal call ended.
#[derive(Debug, PartialEq, Eq)]
pub enum RenewalReply {
    /// No answer came.
    Unreachable,
    /// The authority answered with a status other than success. Holds the
    /// body as text, where it could be read.
    Refused(Option<String>),
    /// The authority answered with success and a body that is no JSON.
    Malformed,
    /// The authority answered with success and this document.
    Answer(serde_json::Value),
}

/// A renewal reply as plain values; of an answer, its text members.
pub enum RenewalReplyView {
    Unreachable,
    Refused(Option<Seq<char>>),
    Malformed,
    Answer(Map<Seq<char>, Seq<char>>),
}

impl View for RenewalReply {
    type V = RenewalReplyView;

    open spec fn view(&self) -> RenewalReplyView {
        match self {
            RenewalReply::Unreachable => RenewalReplyView::Unreachable,
            RenewalReply::Refused(body) => RenewalReplyView::Refused(
                match body {
                    Some(text) => Some(text@),
                    None => None,
                },
            ),
            RenewalReply::Malformed => RenewalReplyView::Malformed,
            RenewalReply::Answer(document) => RenewalReplyView::Answer(
                json_text_members(*document),
            ),
        }
    }
}

} // verus!

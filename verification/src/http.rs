//! Requests to the board service and the reading of its answers.
//!
//! The request itself is sent by the caller; this module says what to send
//! and what an answer means.

use vstd::prelude::*;
use vstd::string::StringExecFns;
use crate::json::{JsonObject, JsonValue};
use crate::result::{
    api_error_message, api_error_result, deleted_message, deleted_output, failure,
    request_failed_message, request_failed_result, success, success_result, ToolResult,
    ToolResultView,
};
use crate::text::owned;

verus! {

/// The HTTP method of a board request.
#[derive(PartialEq, Eq, Structural, Clone, Copy)]
pub enum HttpMethod {
    Get,
    Post,
    Put,
    Delete,
}

/// A request to the board service.
pub struct ApiRequest {
    pub method: HttpMethod,
    pub url: String,
    /// Value of the `Authorization` header.
    pub authorization: String,
    /// JSON object sent as the body, if any.
    pub body: Option<JsonObject>,
    /// The task the request is about, if any.
    pub task_id: Option<String>,
}

/// A board request as plain values.
pub struct ApiRequestView {
    pub method: HttpMethod,
    pub url: Seq<char>,
    pub authorization: Seq<char>,
    pub body: Option<Map<Seq<char>, JsonValue>>,
    pub task_id: Option<Seq<char>>,
}

impl View for ApiRequest {
    type V = ApiRequestView;

    open spec fn view(&self) -> ApiRequestView {
        ApiRequestView {
            method: self.method,
            url: self.url@,
            authorization: self.authorization@,
            body: match self.body {
                Some(b) => Some(b@),
                None => None,
            },
            task_id: match self.task_id {
                Some(t) => Some(t@),
                None => None,
            },
        }
    }
}

/// What came back from sending a request: an answer with its status code
/// and text, or a failure to get any answer.
pub enum HttpOutcome {
    Response { status: u16, body: String },
    Failed { error: String },
}

/// An outcome as plain values.
pub enum HttpOutcomeView {
    Response { status: u16, body: Seq<char> },
    Failed { error: Seq<char> },
}

impl View for HttpOutcome {
    type V = HttpOutcomeView;

    open spec fn view(&self) -> HttpOutcomeView {
        match self {
            HttpOutcome::Response { status, body } => HttpOutcomeView::Response {
                status: *status,
                body: body@,
            },
            HttpOutcome::Failed { error } => HttpOutcomeView::Failed { error: error@ },
        }
    }
}

impl HttpOutcomeView {
    /// A status code, where there is one, is a valid HTTP status (100 to 999).
    pub open spec fn status_valid(self) -> bool {
        match self {
            HttpOutcomeView::Response { status, .. } => 100 <= status <= 999,
            HttpOutcomeView::Failed { .. } => true,
        }
    }
}

/// The text form of a status code: the `Display` rendering of reqwest's
/// `StatusCode` for that code.
pub uninterp spec fn status_text(status: u16) -> Seq<char>;

/// Calls `reqwest::StatusCode::is_success` on the status code; true
/// exactly for the codes 200 to 299 (the function's documented range).
/// Codes that are no status at all (below 100, above 999) are not successes.
#[verifier::external_body]
fn status_is_success(status: u16) -> (r: bool)
    ensures
        r == (200 <= status <= 299),
{
    match reqwest::StatusCode::from_u16(status) {
        Ok(code) => code.is_success(),
        Err(_) => false,
    }
}

/// Renders the status code with reqwest's `Display` for `StatusCode` (the
/// code and its reason phrase); the text is named `status_text` and not
/// spelled out here.
#[verifier::external_body]
fn status_display(status: u16) -> (r: String)
    requires
        100 <= status <= 999,
    ensures
        r@ == status_text(status),
{
    match reqwest::StatusCode::from_u16(status) {
        Ok(code) => format!("{}", code),
        Err(_) => String::new(),
    }
}

/// The value of the `Authorization` header for `api_key`.
pub open spec fn bearer_spec(api_key: Seq<char>) -> Seq<char> {
    "Bearer "@ + api_key
}

/// Builds the `Authorization` header value.
pub fn bearer(api_key: &str) -> (r: String)
    ensures
        r@ == bearer_spec(api_key@),
{
    let mut r = owned("Bearer ");
    r.append(api_key);
    r
}

/// What an answer means for the tools that report the service's text.
pub open spec fn response_result(outcome: HttpOutcomeView) -> ToolResultView {
    match outcome {
        HttpOutcomeView::Response { status, body } => if 200 <= status <= 299 {
            success(body)
        } else {
            failure(api_error_message(status_text(status), body))
        },
        HttpOutcomeView::Failed { error } => failure(request_failed_message(error)),
    }
}

/// What an answer to a deletion of `task_id` means: an empty success text
/// is replaced by a confirmation naming the task.
pub open spec fn delete_response_result(task_id: Seq<char>, outcome: HttpOutcomeView) -> ToolResultView {
    match outcome {
        HttpOutcomeView::Response { status, body } => if 200 <= status <= 299 && body.len() == 0 {
            success(deleted_message(task_id))
        } else {
            response_result(outcome)
        },
        HttpOutcomeView::Failed { .. } => response_result(outcome),
    }
}

/// Reads an answer of the board service.
pub fn interpret_response(outcome: HttpOutcome) -> (r: ToolResult)
    requires
        outcome@.status_valid(),
    ensures
        r@ == response_result(outcome@),
        r@.well_formed(),
{
    match outcome {
        HttpOutcome::Response { status, body } => {
            if status_is_success(status) {
                success_result(body)
            } else {
                let text = status_display(status);
                api_error_result(text.as_str(), body.as_str())
            }
        },
        HttpOutcome::Failed { error } => request_failed_result(error.as_str()),
    }
}

/// Reads an answer of the board service to the deletion of `task_id`.
pub fn interpret_delete_response(task_id: &str, outcome: HttpOutcome) -> (r: ToolResult)
    requires
        outcome@.status_valid(),
    ensures
        r@ == delete_response_result(task_id@, outcome@),
        r@.well_formed(),
{
    match outcome {
        HttpOutcome::Response { status, body } => {
            if status_is_success(status) {
                if body.as_str().is_empty() {
                    success_result(deleted_output(task_id))
                } else {
                    success_result(body)
                }
            } else {
                let text = status_display(status);
                api_error_result(text.as_str(), body.as_str())
            }
        },
        HttpOutcome::Failed { error } => request_failed_result(error.as_str()),
    }
}

/// What an answer means: a status from 200 to 299 is a success whose
/// output is the answer's text (for a deletion, an empty text becomes
/// "Task <id> deleted"); any other status is a failure whose error names the
/// status and carries the text; no answer at all is a failure that carries
/// the reason. A failure never has output.
pub proof fn law_answers(task_id: Seq<char>, outcome: HttpOutcomeView)
    ensures
        match outcome {
            HttpOutcomeView::Response { status, body } => {
                &&& response_result(outcome).success <==> 200 <= status <= 299
                &&& 200 <= status <= 299 ==> response_result(outcome).output == body
                    && response_result(outcome).error is None
                &&& !(200 <= status <= 299) ==> response_result(outcome).output.len() == 0
                    && response_result(outcome).error == Some(
                    "Board API error "@ + status_text(status) + ": "@ + body,
                )
                &&& delete_response_result(task_id, outcome).success <==> 200 <= status <= 299
                &&& 200 <= status <= 299 ==> delete_response_result(task_id, outcome).output == (
                if body.len() == 0 {
                    "Task "@ + task_id + " deleted"@
                } else {
                    body
                })
                &&& !(200 <= status <= 299) ==> delete_response_result(task_id, outcome)
                    == response_result(outcome)
            },
            HttpOutcomeView::Failed { error } => {
                &&& !response_result(outcome).success
                &&& response_result(outcome).output.len() == 0
                &&& response_result(outcome).error == Some("Board API request failed: "@ + error)
                &&& delete_response_result(task_id, outcome) == response_result(outcome)
            },
        },
{
}

} // verus!

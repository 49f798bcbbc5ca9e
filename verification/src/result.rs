//! The result a tool hands back, and the messages of its failures.

use vstd::prelude::*;
use vstd::string::StringExecFns;
use crate::text::owned;

verus! {

/// The outcome of one tool call.
pub struct ToolResult {
    pub success: bool,
    pub output: String,
    pub error: Option<String>,
}

/// A tool outcome as plain values.
pub struct ToolResultView {
    pub success: bool,
    pub output: Seq<char>,
    pub error: Option<Seq<char>>,
}

impl ToolResultView {
    /// A result says whether it succeeded consistently: an error exactly
    /// when it failed, and no output when it failed.
    pub open spec fn well_formed(self) -> bool {
        &&& self.success <==> self.error is None
        &&& !self.success ==> self.output.len() == 0
    }
}

impl View for ToolResult {
    type V = ToolResultView;

    open spec fn view(&self) -> ToolResultView {
        ToolResultView {
            success: self.success,
            output: self.output@,
            error: match self.error {
                Some(e) => Some(e@),
                None => None,
            },
        }
    }
}

/// A failed result with message `msg`.
pub open spec fn failure(msg: Seq<char>) -> ToolResultView {
    ToolResultView { success: false, output: Seq::<char>::empty(), error: Some(msg) }
}

/// A successful result with output `out`.
pub open spec fn success(out: Seq<char>) -> ToolResultView {
    ToolResultView { success: true, output: out, error: None }
}

/// The board is switched off.
pub open spec fn disabled_message() -> Seq<char> {
    "board is disabled by config (board.enabled=false)"@
}

/// The policy allows no action; names the refused action.
pub open spec fn read_only_message(action: Seq<char>) -> Seq<char> {
    "Security policy: read-only mode, cannot perform '"@ + action + "'"@
}

/// The hourly budget is already used up.
pub open spec fn rate_limited_message() -> Seq<char> {
    "Rate limit exceeded: too many actions in the last hour"@
}

/// Recording the action went over the budget.
pub open spec fn budget_exhausted_message() -> Seq<char> {
    "Rate limit exceeded: action budget exhausted"@
}

/// The arguments have no string `task_id`.
pub open spec fn missing_task_id_message() -> Seq<char> {
    "Missing required 'task_id' parameter"@
}

/// The service answered with a non-success status.
pub open spec fn api_error_message(status: Seq<char>, body: Seq<char>) -> Seq<char> {
    "Board API error "@ + status + ": "@ + body
}

/// No answer came back.
pub open spec fn request_failed_message(error: Seq<char>) -> Seq<char> {
    "Board API request failed: "@ + error
}

/// A deletion the service confirmed with no text.
pub open spec fn deleted_message(task_id: Seq<char>) -> Seq<char> {
    "Task "@ + task_id + " deleted"@
}

/// A failed result carrying `msg`.
pub fn failure_result(msg: String) -> (r: ToolResult)
    ensures
        r@ == failure(msg@),
{
    ToolResult { success: false, output: String::new(), error: Some(msg) }
}

/// A successful result carrying `out`.
pub fn success_result(out: String) -> (r: ToolResult)
    ensures
        r@ == success(out@),
{
    ToolResult { success: true, output: out, error: None }
}

/// The result when the board is switched off in the configuration.
pub fn disabled_result() -> (r: ToolResult)
    ensures
        r@ == failure(disabled_message()),
{
    failure_result(owned("board is disabled by config (board.enabled=false)"))
}

/// The result when the policy allows no action at all.
pub fn read_only_result(action: &str) -> (r: ToolResult)
    ensures
        r@ == failure(read_only_message(action@)),
{
    let mut msg = owned("Security policy: read-only mode, cannot perform '");
    msg.append(action);
    msg.append("'");
    failure_result(msg)
}

/// The result when the hourly budget is already used up.
pub fn rate_limited_result() -> (r: ToolResult)
    ensures
        r@ == failure(rate_limited_message()),
{
    failure_result(owned("Rate limit exceeded: too many actions in the last hour"))
}

/// The result when recording the action goes over the budget.
pub fn budget_exhausted_result() -> (r: ToolResult)
    ensures
        r@ == failure(budget_exhausted_message()),
{
    failure_result(owned("Rate limit exceeded: action budget exhausted"))
}

/// The result when `task_id` is absent or not a string.
pub fn missing_task_id_result() -> (r: ToolResult)
    ensures
        r@ == failure(missing_task_id_message()),
{
    failure_result(owned("Missing required 'task_id' parameter"))
}

/// The result when the service answers with a non-success status;
/// `status` is the status as text.
pub fn api_error_result(status: &str, body: &str) -> (r: ToolResult)
    ensures
        r@ == failure(api_error_message(status@, body@)),
{
    let mut msg = owned("Board API error ");
    msg.append(status);
    msg.append(": ");
    msg.append(body);
    failure_result(msg)
}

/// The result when the request could not be made at all.
pub fn request_failed_result(error: &str) -> (r: ToolResult)
    ensures
        r@ == failure(request_failed_message(error@)),
{
    let mut msg = owned("Board API request failed: ");
    msg.append(error);
    failure_result(msg)
}

/// The output reported for a deletion the service answered with no text.
pub fn deleted_output(task_id: &str) -> (r: String)
    ensures
        r@ == deleted_message(task_id@),
{
    let mut msg = owned("Task ");
    msg.append(task_id);
    msg.append(" deleted");
    msg
}

} // verus!

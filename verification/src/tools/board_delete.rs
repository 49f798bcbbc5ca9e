//! Deleting a task from the board.

use vstd::prelude::*;
use vstd::string::StringExecFns;
use crate::config::{BoardConfigView, Config};
use crate::http::{
    bearer, bearer_spec, delete_response_result, interpret_delete_response, ApiRequest,
    ApiRequestView, HttpMethod, HttpOutcome,
};
use crate::json::{arg_str, JsonObject, JsonValue};
use crate::result::{
    disabled_message, disabled_result, failure, missing_task_id_message, missing_task_id_result,
    ToolResult,
};
use crate::security::{SecurityPolicy, SecurityPolicyView};
use crate::text::owned;
use crate::tools::{
    check_mutation, mutation_policy_after, mutation_refusal, option_result_view,
    policy_after_check, ToolStep,
    ToolStepView,
};

verus! {

/// Deletes a task from the board.
pub struct BoardDeleteTool {
    config: Config,
}

impl View for BoardDeleteTool {
    type V = BoardConfigView;

    closed spec fn view(&self) -> BoardConfigView {
        self.config@
    }
}

/// The first step of a delete call with arguments `args` at `now`,
/// checked against the security policy `policy`.
pub open spec fn delete_step(
    config: BoardConfigView,
    policy: SecurityPolicyView,
    args: Map<Seq<char>, JsonValue>,
    now: u64,
) -> ToolStepView {
    if !config.enabled {
        ToolStepView::Done(failure(disabled_message()))
    } else {
        match mutation_refusal(policy, "board_delete"@, now) {
            Some(r) => ToolStepView::Done(r),
            None => match arg_str(args, "task_id"@) {
                Some(id) => ToolStepView::Call(
                    ApiRequestView {
                        method: HttpMethod::Delete,
                        url: config.api_url + "/board/tasks/"@ + id,
                        authorization: bearer_spec(config.api_key),
                        body: None,
                        task_id: Some(id),
                    },
                ),
                None => ToolStepView::Done(failure(missing_task_id_message())),
            },
        }
    }
}

/// The task a request is about; empty when it names none.
pub open spec fn request_task(request: ApiRequestView) -> Seq<char> {
    match request.task_id {
        Some(t) => t,
        None => Seq::<char>::empty(),
    }
}

/// The parameter schema of the delete tool, as JSON text.
pub open spec fn delete_schema() -> Seq<char> {
    "{\"type\":\"object\",\"properties\":{\"task_id\":{\"type\":\"string\",\"description\":\"Task UUID to delete\"}},\"required\":[\"task_id\"],\"additionalProperties\":false}"@
}

impl BoardDeleteTool {
    pub fn new(config: Config) -> (r: BoardDeleteTool)
        ensures
            r@ == config@,
    {
        BoardDeleteTool { config }
    }

    pub fn name(&self) -> (r: &'static str)
        ensures
            r@ == "board_delete"@,
    {
        "board_delete"
    }

    pub fn description(&self) -> (r: &'static str)
        ensures
            r@ == "Delete a task from the board"@,
    {
        "Delete a task from the board"
    }

    /// The JSON schema of the arguments, as JSON text.
    pub fn parameters_schema(&self) -> (r: String)
        ensures
            r@ == delete_schema(),
    {
        owned(
            "{\"type\":\"object\",\"properties\":{\"task_id\":{\"type\":\"string\",\"description\":\"Task UUID to delete\"}},\"required\":[\"task_id\"],\"additionalProperties\":false}",
        )
    }

    /// Refuses the mutating `action` when the security policy does not
    /// allow it at `now`; otherwise records it in the policy.
    pub fn enforce_mutation_allowed(
        &self,
        security: &mut SecurityPolicy,
        action: &str,
        now: u64,
    ) -> (r: Option<ToolResult>)
        ensures
            option_result_view(r) == mutation_refusal(old(security)@, action@, now),
            final(security)@ == policy_after_check(old(security)@, now),
    {
        check_mutation(security, action, now)
    }

    /// First step of a delete call: the result when the call is refused
    /// or has no task id, or the DELETE request for the task.
    pub fn begin_execute(&self, security: &mut SecurityPolicy, args: JsonObject, now: u64) -> (r:
        ToolStep)
        ensures
            r@ == delete_step(self@, old(security)@, args@, now),
            final(security)@ == mutation_policy_after(self@, old(security)@, now),
            r@.well_formed(),
    {
        if !self.config.board.enabled {
            return ToolStep::Done(disabled_result());
        }
        if let Some(err) = self.enforce_mutation_allowed(security, "board_delete", now) {
            return ToolStep::Done(err);
        }
        let task_id = match args.get_str("task_id") {
            Some(id) => id,
            None => {
                return ToolStep::Done(missing_task_id_result());
            },
        };
        let mut url = owned(self.config.board.api_url.as_str());
        url.append("/board/tasks/");
        url.append(task_id.as_str());
        ToolStep::Call(
            ApiRequest {
                method: HttpMethod::Delete,
                url,
                authorization: bearer(self.config.board.api_key.as_str()),
                body: None,
                task_id: Some(task_id),
            },
        )
    }

    /// Second step of a delete call made with `request`: what the answer
    /// means; an empty success text becomes a confirmation naming the task.
    pub fn finish_execute(&self, request: &ApiRequest, outcome: HttpOutcome) -> (r: ToolResult)
        requires
            outcome@.status_valid(),
        ensures
            r@ == delete_response_result(request_task(request@), outcome@),
            r@.well_formed(),
    {
        match &request.task_id {
            Some(t) => interpret_delete_response(t.as_str(), outcome),
            None => {
                proof {
                    reveal_strlit("");
                }
                interpret_delete_response("", outcome)
            },
        }
    }
}

/// A delete request goes out exactly when the board is enabled, the
/// policy lets one more action through and `task_id` is a string; it is a
/// DELETE of that task, with no body, carrying the bearer token of the
/// configuration.
pub proof fn law_delete_request(
    config: BoardConfigView,
    policy: SecurityPolicyView,
    args: Map<Seq<char>, JsonValue>,
    now: u64,
)
    ensures
        delete_step(config, policy, args, now) is Call <==> (config.enabled && policy.can_act()
            && !policy.rate_limited(now) && policy.record_within_budget(now) && args.contains_key(
            "task_id"@,
        ) && args["task_id"@] is Str),
        delete_step(config, policy, args, now) matches ToolStepView::Call(req) ==> {
            &&& args["task_id"@] matches JsonValue::Str(id) && req.url == config.api_url
                + "/board/tasks/"@ + id@ && req.task_id == Some(id@)
            &&& req.method == HttpMethod::Delete
            &&& req.authorization == "Bearer "@ + config.api_key
            &&& req.body is None
        },
{
}

} // verus!

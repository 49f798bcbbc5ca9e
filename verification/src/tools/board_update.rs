//! Updating a task on the board.

use vstd::prelude::*;
use vstd::string::StringExecFns;
use crate::config::{BoardConfigView, Config};
use crate::http::{
    bearer, bearer_spec, interpret_response, response_result, ApiRequest, ApiRequestView,
    HttpMethod, HttpOutcome,
};
use crate::json::{arg_str, key_set, JsonObject, JsonValue};
use crate::result::{
    disabled_message, disabled_result, failure, missing_task_id_message, missing_task_id_result,
    ToolResult,
};
use crate::security::{SecurityPolicy, SecurityPolicyView};
use crate::text::owned;
use crate::tools::{
    check_mutation, mutation_policy_after, mutation_refusal, option_result_view,
    policy_after_check, ToolStep,
    ToolStepView,
};

verus! {

/// Updates a task on the board: status, priority, or a result summary.
pub struct BoardUpdateTool {
    config: Config,
}

impl View for BoardUpdateTool {
    type V = BoardConfigView;

    closed spec fn view(&self) -> BoardConfigView {
        self.config@
    }
}

/// The argument fields that go into the body of an update.
pub open spec fn update_fields() -> Seq<&'static str> {
    seq!["title", "description", "status", "priority", "category", "due_date", "result_summary"]
}

/// The first step of an update call with arguments `args` at `now`,
/// checked against the security policy `policy`.
pub open spec fn update_step(
    config: BoardConfigView,
    policy: SecurityPolicyView,
    args: Map<Seq<char>, JsonValue>,
    now: u64,
) -> ToolStepView {
    if !config.enabled {
        ToolStepView::Done(failure(disabled_message()))
    } else {
        match mutation_refusal(policy, "board_update"@, now) {
            Some(r) => ToolStepView::Done(r),
            None => match arg_str(args, "task_id"@) {
                Some(id) => ToolStepView::Call(
                    ApiRequestView {
                        method: HttpMethod::Put,
                        url: config.api_url + "/board/tasks/"@ + id,
                        authorization: bearer_spec(config.api_key),
                        body: Some(args.restrict(key_set(update_fields()))),
                        task_id: Some(id),
                    },
                ),
                None => ToolStepView::Done(failure(missing_task_id_message())),
            },
        }
    }
}

/// The parameter schema of the update tool, as JSON text.
pub open spec fn update_schema() -> Seq<char> {
    "{\"type\":\"object\",\"properties\":{\"task_id\":{\"type\":\"string\",\"description\":\"Task UUID to update\"},\"title\":{\"type\":\"string\"},\"description\":{\"type\":\"string\"},\"status\":{\"type\":\"string\",\"description\":\"New status: pending, in_progress, done, archived\",\"enum\":[\"pending\",\"in_progress\",\"done\",\"archived\"]},\"priority\":{\"type\":\"integer\",\"enum\":[0,1,2]},\"category\":{\"type\":\"string\"},\"due_date\":{\"type\":\"string\"},\"result_summary\":{\"type\":\"string\",\"description\":\"Summary of what was accomplished (set when marking done)\"}},\"required\":[\"task_id\"],\"additionalProperties\":false}"@
}

impl BoardUpdateTool {
    pub fn new(config: Config) -> (r: BoardUpdateTool)
        ensures
            r@ == config@,
    {
        BoardUpdateTool { config }
    }

    pub fn name(&self) -> (r: &'static str)
        ensures
            r@ == "board_update"@,
    {
        "board_update"
    }

    pub fn description(&self) -> (r: &'static str)
        ensures
            r@ == "Update a task on the board — change status, priority, or add a result summary"@,
    {
        "Update a task on the board — change status, priority, or add a result summary"
    }

    /// The JSON schema of the arguments, as JSON text.
    pub fn parameters_schema(&self) -> (r: String)
        ensures
            r@ == update_schema(),
    {
        owned(
            "{\"type\":\"object\",\"properties\":{\"task_id\":{\"type\":\"string\",\"description\":\"Task UUID to update\"},\"title\":{\"type\":\"string\"},\"description\":{\"type\":\"string\"},\"status\":{\"type\":\"string\",\"description\":\"New status: pending, in_progress, done, archived\",\"enum\":[\"pending\",\"in_progress\",\"done\",\"archived\"]},\"priority\":{\"type\":\"integer\",\"enum\":[0,1,2]},\"category\":{\"type\":\"string\"},\"due_date\":{\"type\":\"string\"},\"result_summary\":{\"type\":\"string\",\"description\":\"Summary of what was accomplished (set when marking done)\"}},\"required\":[\"task_id\"],\"additionalProperties\":false}",
        )
    }

    /// Refuses the mutating `action` when the security policy does not
    /// allow it at `now`; otherwise records it in the policy.
    pub fn enforce_mutation_allowed(
        &self,
        security: &mut SecurityPolicy,
        action: &str,
        now: u64,
    ) -> (r: Option<ToolResult>)
        ensures
            option_result_view(r) == mutation_refusal(old(security)@, action@, now),
            final(security)@ == policy_after_check(old(security)@, now),
    {
        check_mutation(security, action, now)
    }

    /// First step of an update call: the result when the call is refused
    /// or has no task id, or the PUT request that updates the task.
    pub fn begin_execute(&self, security: &mut SecurityPolicy, args: JsonObject, now: u64) -> (r:
        ToolStep)
        ensures
            r@ == update_step(self@, old(security)@, args@, now),
            final(security)@ == mutation_policy_after(self@, old(security)@, now),
            r@.well_formed(),
    {
        if !self.config.board.enabled {
            return ToolStep::Done(disabled_result());
        }
        if let Some(err) = self.enforce_mutation_allowed(security, "board_update", now) {
            return ToolStep::Done(err);
        }
        let task_id = match args.get_str("task_id") {
            Some(id) => id,
            None => {
                return ToolStep::Done(missing_task_id_result());
            },
        };
        let mut url = owned(self.config.board.api_url.as_str());
        url.append("/board/tasks/");
        url.append(task_id.as_str());
        let keys = vec![
            "title",
            "description",
            "status",
            "priority",
            "category",
            "due_date",
            "result_summary",
        ];
        assert(keys@ =~= update_fields());
        let body = args.select(keys.as_slice());
        ToolStep::Call(
            ApiRequest {
                method: HttpMethod::Put,
                url,
                authorization: bearer(self.config.board.api_key.as_str()),
                body: Some(body),
                task_id: Some(task_id),
            },
        )
    }

    /// Second step of an update call: what the answer means.
    pub fn finish_execute(&self, outcome: HttpOutcome) -> (r: ToolResult)
        requires
            outcome@.status_valid(),
        ensures
            r@ == response_result(outcome@),
            r@.well_formed(),
    {
        interpret_response(outcome)
    }
}

/// An update request goes out exactly when the board is enabled, the
/// policy lets one more action through and `task_id` is a string; it is a
/// PUT to that task with the bearer token of the configuration, and its
/// body is exactly the arguments under the update fields (title,
/// description, status, priority, category, due_date, result_summary),
/// each with its value: none is dropped and nothing else is added.
pub proof fn law_update_request(
    config: BoardConfigView,
    policy: SecurityPolicyView,
    args: Map<Seq<char>, JsonValue>,
    now: u64,
)
    ensures
        update_step(config, policy, args, now) is Call <==> (config.enabled && policy.can_act()
            && !policy.rate_limited(now) && policy.record_within_budget(now) && args.contains_key(
            "task_id"@,
        ) && args["task_id"@] is Str),
        update_step(config, policy, args, now) matches ToolStepView::Call(req) ==> {
            &&& args["task_id"@] matches JsonValue::Str(id) && req.url == config.api_url
                + "/board/tasks/"@ + id@ && req.task_id == Some(id@)
            &&& req.method == HttpMethod::Put
            &&& req.authorization == "Bearer "@ + config.api_key
            &&& req.body matches Some(body) && forall|k: Seq<char>|
                #![trigger body.contains_key(k)]
                #![trigger args.contains_key(k)]
                (body.contains_key(k) <==> args.contains_key(k) && (k == "title"@ || k
                    == "description"@ || k == "status"@ || k == "priority"@ || k == "category"@
                    || k == "due_date"@ || k == "result_summary"@)) && (body.contains_key(k)
                ==> body[k] == args[k])
        },
{
    let names = update_fields();
    assert forall|k: Seq<char>|
        key_set(names).contains(k) <==> (k == "title"@ || k == "description"@ || k == "status"@
            || k == "priority"@ || k == "category"@ || k == "due_date"@ || k
            == "result_summary"@) by {
        if key_set(names).contains(k) {
            let j = choose|j: int| 0 <= j < names.len() && #[trigger] names[j]@ == k;
            assert(j == 0 || j == 1 || j == 2 || j == 3 || j == 4 || j == 5 || j == 6);
        }
        if k == "title"@ {
            assert(names[0]@ == k);
        } else if k == "description"@ {
            assert(names[1]@ == k);
        } else if k == "status"@ {
            assert(names[2]@ == k);
        } else if k == "priority"@ {
            assert(names[3]@ == k);
        } else if k == "category"@ {
            assert(names[4]@ == k);
        } else if k == "due_date"@ {
            assert(names[5]@ == k);
        } else if k == "result_summary"@ {
            assert(names[6]@ == k);
        }
    }
}

} // verus!

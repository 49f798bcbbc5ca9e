//! Creating a task on the board.

use vstd::prelude::*;
use vstd::string::StringExecFns;
use crate::config::{BoardConfigView, Config};
use crate::http::{
    bearer, bearer_spec, interpret_response, response_result, ApiRequest, ApiRequestView,
    HttpMethod, HttpOutcome,
};
use crate::json::{key_set, JsonObject, JsonValue};
use crate::result::{disabled_message, disabled_result, failure, ToolResult};
use crate::security::{SecurityPolicy, SecurityPolicyView};
use crate::text::owned;
use crate::tools::{
    check_mutation, mutation_policy_after, mutation_refusal, option_result_view,
    policy_after_check, ToolStep,
    ToolStepView,
};

verus! {

/// Creates a task on the board.
pub struct BoardCreateTool {
    config: Config,
}

impl View for BoardCreateTool {
    type V = BoardConfigView;

    closed spec fn view(&self) -> BoardConfigView {
        self.config@
    }
}

/// The argument fields that go into the body of a new task.
pub open spec fn create_fields() -> Seq<&'static str> {
    seq![
        "title",
        "description",
        "priority",
        "category",
        "source",
        "recurrence_key",
        "due_date",
        "parent_task_id",
    ]
}

/// The first step of a create call with arguments `args` at `now`,
/// checked against the security policy `policy`.
pub open spec fn create_step(
    config: BoardConfigView,
    policy: SecurityPolicyView,
    args: Map<Seq<char>, JsonValue>,
    now: u64,
) -> ToolStepView {
    if !config.enabled {
        ToolStepView::Done(failure(disabled_message()))
    } else {
        match mutation_refusal(policy, "board_create"@, now) {
            Some(r) => ToolStepView::Done(r),
            None => ToolStepView::Call(
                ApiRequestView {
                    method: HttpMethod::Post,
                    url: config.api_url + "/board/tasks"@,
                    authorization: bearer_spec(config.api_key),
                    body: Some(args.restrict(key_set(create_fields()))),
                    task_id: None,
                },
            ),
        }
    }
}

/// The parameter schema of the create tool, as JSON text.
pub open spec fn create_schema() -> Seq<char> {
    "{\"type\":\"object\",\"properties\":{\"title\":{\"type\":\"string\",\"description\":\"Task title\"},\"description\":{\"type\":\"string\",\"description\":\"Task description\"},\"priority\":{\"type\":\"integer\",\"description\":\"Priority: 0 (low), 1 (normal), 2 (urgent)\",\"enum\":[0,1,2]},\"category\":{\"type\":\"string\",\"description\":\"Category label (e.g. briefing, wellness, meals, admin)\"},\"source\":{\"type\":\"string\",\"description\":\"Source: daily_plan, employer, agent, manual\",\"enum\":[\"daily_plan\",\"employer\",\"agent\",\"manual\"]},\"recurrence_key\":{\"type\":\"string\",\"description\":\"Dedup key for recurring tasks (e.g. 'morning_briefing'). Server rejects if a pending/in_progress task with the same key exists.\"},\"due_date\":{\"type\":\"string\",\"description\":\"Due date in YYYY-MM-DD format\"},\"parent_task_id\":{\"type\":\"string\",\"description\":\"Parent task UUID for sub-tasks\"}},\"required\":[\"title\"],\"additionalProperties\":false}"@
}

impl BoardCreateTool {
    pub fn new(config: Config) -> (r: BoardCreateTool)
        ensures
            r@ == config@,
    {
        BoardCreateTool { config }
    }

    pub fn name(&self) -> (r: &'static str)
        ensures
            r@ == "board_create"@,
    {
        "board_create"
    }

    pub fn description(&self) -> (r: &'static str)
        ensures
            r@ == "Create a new task on the board"@,
    {
        "Create a new task on the board"
    }

    /// The JSON schema of the arguments, as JSON text.
    pub fn parameters_schema(&self) -> (r: String)
        ensures
            r@ == create_schema(),
    {
        owned(
            "{\"type\":\"object\",\"properties\":{\"title\":{\"type\":\"string\",\"description\":\"Task title\"},\"description\":{\"type\":\"string\",\"description\":\"Task description\"},\"priority\":{\"type\":\"integer\",\"description\":\"Priority: 0 (low), 1 (normal), 2 (urgent)\",\"enum\":[0,1,2]},\"category\":{\"type\":\"string\",\"description\":\"Category label (e.g. briefing, wellness, meals, admin)\"},\"source\":{\"type\":\"string\",\"description\":\"Source: daily_plan, employer, agent, manual\",\"enum\":[\"daily_plan\",\"employer\",\"agent\",\"manual\"]},\"recurrence_key\":{\"type\":\"string\",\"description\":\"Dedup key for recurring tasks (e.g. 'morning_briefing'). Server rejects if a pending/in_progress task with the same key exists.\"},\"due_date\":{\"type\":\"string\",\"description\":\"Due date in YYYY-MM-DD format\"},\"parent_task_id\":{\"type\":\"string\",\"description\":\"Parent task UUID for sub-tasks\"}},\"required\":[\"title\"],\"additionalProperties\":false}",
        )
    }

    /// Refuses the mutating `action` when the security policy does not
    /// allow it at `now`; otherwise records it in the policy.
    pub fn enforce_mutation_allowed(
        &self,
        security: &mut SecurityPolicy,
        action: &str,
        now: u64,
    ) -> (r: Option<ToolResult>)
        ensures
            option_result_view(r) == mutation_refusal(old(security)@, action@, now),
            final(security)@ == policy_after_check(old(security)@, now),
    {
        check_mutation(security, action, now)
    }

    /// First step of a create call: the result when the call is refused,
    /// or the POST request that creates the task.
    pub fn begin_execute(&self, security: &mut SecurityPolicy, args: JsonObject, now: u64) -> (r:
        ToolStep)
        ensures
            r@ == create_step(self@, old(security)@, args@, now),
            final(security)@ == mutation_policy_after(self@, old(security)@, now),
            r@.well_formed(),
    {
        if !self.config.board.enabled {
            return ToolStep::Done(disabled_result());
        }
        if let Some(err) = self.enforce_mutation_allowed(security, "board_create", now) {
            return ToolStep::Done(err);
        }
        let mut url = owned(self.config.board.api_url.as_str());
        url.append("/board/tasks");
        let keys = vec![
            "title",
            "description",
            "priority",
            "category",
            "source",
            "recurrence_key",
            "due_date",
            "parent_task_id",
        ];
        assert(keys@ =~= create_fields());
        let body = args.select(keys.as_slice());
        ToolStep::Call(
            ApiRequest {
                method: HttpMethod::Post,
                url,
                authorization: bearer(self.config.board.api_key.as_str()),
                body: Some(body),
                task_id: None,
            },
        )
    }

    /// Second step of a create call: what the answer means.
    pub fn finish_execute(&self, outcome: HttpOutcome) -> (r: ToolResult)
        requires
            outcome@.status_valid(),
        ensures
            r@ == response_result(outcome@),
            r@.well_formed(),
    {
        interpret_response(outcome)
    }
}

/// A create request goes out exactly when the board is enabled and the
/// policy lets one more action through; it is a POST to the tasks
/// collection with the bearer token of the configuration, and its body is
/// exactly the arguments under the task fields (title, description,
/// priority, category, source, recurrence_key, due_date, parent_task_id),
/// each with its value: none is dropped and nothing else is added.
pub proof fn law_create_request(
    config: BoardConfigView,
    policy: SecurityPolicyView,
    args: Map<Seq<char>, JsonValue>,
    now: u64,
)
    ensures
        create_step(config, policy, args, now) is Call <==> (config.enabled && policy.can_act()
            && !policy.rate_limited(now) && policy.record_within_budget(now)),
        create_step(config, policy, args, now) matches ToolStepView::Call(req) ==> {
            &&& req.method == HttpMethod::Post
            &&& req.url == config.api_url + "/board/tasks"@
            &&& req.authorization == "Bearer "@ + config.api_key
            &&& req.task_id is None
            &&& req.body matches Some(body) && forall|k: Seq<char>|
                #![trigger body.contains_key(k)]
                #![trigger args.contains_key(k)]
                (body.contains_key(k) <==> args.contains_key(k) && (k == "title"@ || k
                    == "description"@ || k == "priority"@ || k == "category"@ || k == "source"@
                    || k == "recurrence_key"@ || k == "due_date"@ || k == "parent_task_id"@)) && (
                body.contains_key(k) ==> body[k] == args[k])
        },
{
    let names = create_fields();
    assert forall|k: Seq<char>|
        key_set(names).contains(k) <==> (k == "title"@ || k == "description"@ || k == "priority"@
            || k == "category"@ || k == "source"@ || k == "recurrence_key"@ || k == "due_date"@
            || k == "parent_task_id"@) by {
        if key_set(names).contains(k) {
            let j = choose|j: int| 0 <= j < names.len() && #[trigger] names[j]@ == k;
            assert(j == 0 || j == 1 || j == 2 || j == 3 || j == 4 || j == 5 || j == 6 || j == 7);
        }
        if k == "title"@ {
            assert(names[0]@ == k);
        } else if k == "description"@ {
            assert(names[1]@ == k);
        } else if k == "priority"@ {
            assert(names[2]@ == k);
        } else if k == "category"@ {
            assert(names[3]@ == k);
        } else if k == "source"@ {
            assert(names[4]@ == k);
        } else if k == "recurrence_key"@ {
            assert(names[5]@ == k);
        } else if k == "due_date"@ {
            assert(names[6]@ == k);
        } else if k == "parent_task_id"@ {
            assert(names[7]@ == k);
        }
    }
}

} // verus!

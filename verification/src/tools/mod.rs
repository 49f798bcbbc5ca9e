//! The board tools. Each tool runs in two steps: `begin_execute` decides,
//! from the configuration, the security policy and the arguments, either
//! the final result or the request to send; `finish_execute` reads the
//! answer to that request.

use vstd::prelude::*;
use crate::http::{ApiRequest, ApiRequestView};
use crate::result::{
    budget_exhausted_message, budget_exhausted_result, failure, rate_limited_message,
    rate_limited_result, read_only_message, read_only_result, ToolResult, ToolResultView,
};
use crate::json::{key_set, JsonValue};
use crate::security::{law_record_adds_one, recent, SecurityPolicy, SecurityPolicyView};
use crate::config::BoardConfigView;
use crate::tools::board_create::{create_fields, create_step};
use crate::tools::board_delete::delete_step;
use crate::tools::board_update::{update_fields, update_step};

pub mod board_create;
pub mod board_delete;
pub mod board_list;
pub mod board_summary;
pub mod board_update;

verus! {

/// What a tool does next: answer at once, or send a request first.
pub enum ToolStep {
    Done(ToolResult),
    Call(ApiRequest),
}

/// A next step as plain values.
pub enum ToolStepView {
    Done(ToolResultView),
    Call(ApiRequestView),
}

impl View for ToolStep {
    type V = ToolStepView;

    open spec fn view(&self) -> ToolStepView {
        match self {
            ToolStep::Done(r) => ToolStepView::Done(r@),
            ToolStep::Call(req) => ToolStepView::Call(req@),
        }
    }
}

impl ToolStepView {
    /// A final answer, if there is one, is a well-formed result.
    pub open spec fn well_formed(self) -> bool {
        match self {
            ToolStepView::Done(r) => r.well_formed(),
            ToolStepView::Call(_) => true,
        }
    }
}

/// An optional result as plain values.
pub open spec fn option_result_view(r: Option<ToolResult>) -> Option<ToolResultView> {
    match r {
        Some(x) => Some(x@),
        None => None,
    }
}

/// Why a mutating `action` is refused at `now`, if it is: the policy
/// allows no action; or the hourly budget is already used up; or the
/// action, once recorded, goes over the budget.
pub open spec fn mutation_refusal(policy: SecurityPolicyView, action: Seq<char>, now: u64) -> Option<
    ToolResultView,
> {
    if !policy.can_act() {
        Some(failure(read_only_message(action)))
    } else if policy.rate_limited(now) {
        Some(failure(rate_limited_message()))
    } else if !policy.record_within_budget(now) {
        Some(failure(budget_exhausted_message()))
    } else {
        None
    }
}

/// The policy after the security check: the action is recorded exactly when the
/// policy allows acting and the budget was not already used up.
pub open spec fn policy_after_check(policy: SecurityPolicyView, now: u64) -> SecurityPolicyView {
    if policy.can_act() && !policy.rate_limited(now) {
        policy.after_record(now)
    } else {
        policy
    }
}

/// Checks whether a mutating `action` may go ahead at `now`, recording it
/// when the policy allows acting and the budget is not used up yet.
pub fn check_mutation(security: &mut SecurityPolicy, action: &str, now: u64) -> (r: Option<
    ToolResult,
>)
    ensures
        option_result_view(r) == mutation_refusal(old(security)@, action@, now),
        final(security)@ == policy_after_check(old(security)@, now),
{
    if !security.can_act() {
        return Some(read_only_result(action));
    }
    if security.is_rate_limited(now) {
        return Some(rate_limited_result());
    }
    if !security.record_action(now) {
        return Some(budget_exhausted_result());
    }
    None
}

/// A refused mutation is a well-formed failure, and a mutation is refused
/// whenever the policy allows no action or the budget is used up.
pub proof fn law_refusals(policy: SecurityPolicyView, action: Seq<char>, now: u64)
    ensures
        mutation_refusal(policy, action, now) matches Some(r) ==> r.well_formed() && !r.success,
        !policy.can_act() ==> mutation_refusal(policy, action, now) is Some && policy_after_check(
            policy,
            now,
        ) == policy,
        policy.rate_limited(now) ==> mutation_refusal(policy, action, now) is Some,
{
}

/// The policy after the first step of a mutating tool with configuration
/// `config`: the security check runs only when the board is enabled, and
/// before the arguments are looked at.
pub open spec fn mutation_policy_after(
    config: BoardConfigView,
    policy: SecurityPolicyView,
    now: u64,
) -> SecurityPolicyView {
    if config.enabled {
        policy_after_check(policy, now)
    } else {
        policy
    }
}

/// A read-only policy lets no mutating tool send a request, and leaves the
/// policy as it was.
pub proof fn law_read_only_blocks_mutations(
    config: BoardConfigView,
    policy: SecurityPolicyView,
    args: Map<Seq<char>, JsonValue>,
    now: u64,
)
    requires
        !policy.can_act(),
    ensures
        create_step(config, policy, args, now) is Done,
        update_step(config, policy, args, now) is Done,
        delete_step(config, policy, args, now) is Done,
        mutation_policy_after(config, policy, now) == policy,
{
}

/// A switched-off board lets no tool send a request, and no tool touches
/// the security policy.
pub proof fn law_disabled_board_sends_nothing(
    config: BoardConfigView,
    policy: SecurityPolicyView,
    args: Map<Seq<char>, JsonValue>,
    now: u64,
)
    requires
        !config.enabled,
    ensures
        create_step(config, policy, args, now) is Done,
        update_step(config, policy, args, now) is Done,
        delete_step(config, policy, args, now) is Done,
        mutation_policy_after(config, policy, now) == policy,
{
}

/// A mutating step that sends a request.
pub open spec fn sends_request(
    tool: int,
    config: BoardConfigView,
    policy: SecurityPolicyView,
    args: Map<Seq<char>, JsonValue>,
    now: u64,
) -> bool {
    if tool == 0 {
        create_step(config, policy, args, now) is Call
    } else if tool == 1 {
        update_step(config, policy, args, now) is Call
    } else {
        delete_step(config, policy, args, now) is Call
    }
}

/// Every mutation request that goes out, whichever of the create (`tool`
/// 0), update (1) and delete (2) tools sends it, has been recorded in the
/// policy, and the actions counted in the last hour, this one included,
/// stay within the budget.
pub proof fn law_mutation_requests_within_budget(
    tool: int,
    config: BoardConfigView,
    policy: SecurityPolicyView,
    args: Map<Seq<char>, JsonValue>,
    now: u64,
)
    requires
        sends_request(tool, config, policy, args, now),
    ensures
        mutation_policy_after(config, policy, now) == policy.after_record(now),
        recent(mutation_policy_after(config, policy, now).actions, now).len()
            == recent(policy.actions, now).len() + 1,
        recent(mutation_policy_after(config, policy, now).actions, now).len()
            <= policy.max_actions_per_hour,
{
    law_record_adds_one(policy, now);
}

/// The mutating tools share one budget: when two of them, possibly with
/// different configurations, send requests at the same time `now` through
/// one policy, both requests count against it, so together they need room
/// for two actions in the hour.
pub proof fn law_mutations_share_one_budget(
    first: int,
    second: int,
    config1: BoardConfigView,
    config2: BoardConfigView,
    policy: SecurityPolicyView,
    args1: Map<Seq<char>, JsonValue>,
    args2: Map<Seq<char>, JsonValue>,
    now: u64,
)
    requires
        sends_request(first, config1, policy, args1, now),
        sends_request(
            second,
            config2,
            mutation_policy_after(config1, policy, now),
            args2,
            now,
        ),
    ensures
        recent(
            mutation_policy_after(config2, mutation_policy_after(config1, policy, now), now).actions,
            now,
        ).len() == recent(policy.actions, now).len() + 2,
        recent(policy.actions, now).len() + 2 <= policy.max_actions_per_hour,
{
    law_mutation_requests_within_budget(first, config1, policy, args1, now);
    law_mutation_requests_within_budget(
        second,
        config2,
        mutation_policy_after(config1, policy, now),
        args2,
        now,
    );
}

/// With a budget of one action an hour, once any mutating tool has sent a
/// request through the policy, no mutating tool sends another one within
/// the same instant: it is told the budget is used up.
pub proof fn law_budget_of_one_covers_all_tools(
    first: int,
    second: int,
    config1: BoardConfigView,
    config2: BoardConfigView,
    policy: SecurityPolicyView,
    args1: Map<Seq<char>, JsonValue>,
    args2: Map<Seq<char>, JsonValue>,
    now: u64,
)
    requires
        policy.max_actions_per_hour == 1,
        policy.can_act(),
        config2.enabled,
        sends_request(first, config1, policy, args1, now),
    ensures
        !sends_request(second, config2, mutation_policy_after(config1, policy, now), args2, now),
        mutation_refusal(mutation_policy_after(config1, policy, now), "board_create"@, now)
            == Some(failure(rate_limited_message())),
{
    law_mutation_requests_within_budget(first, config1, policy, args1, now);
}

/// The body of an update never carries the task id: the id goes in the
/// URL, and every other field in the body comes unchanged from the
/// arguments.
pub proof fn law_update_body(
    config: BoardConfigView,
    policy: SecurityPolicyView,
    args: Map<Seq<char>, JsonValue>,
    now: u64,
)
    requires
        update_step(config, policy, args, now) is Call,
    ensures
        update_step(config, policy, args, now)->Call_0.body matches Some(body) && !body.contains_key(
            "task_id"@,
        ) && forall|k: Seq<char>| #[trigger]
            body.contains_key(k) ==> args.contains_key(k) && body[k] == args[k],
{
    reveal_strlit("task_id");
    reveal_strlit("title");
    reveal_strlit("description");
    reveal_strlit("status");
    reveal_strlit("priority");
    reveal_strlit("category");
    reveal_strlit("due_date");
    reveal_strlit("result_summary");
    let names = update_fields();
    assert(!key_set(names).contains("task_id"@)) by {
        if key_set(names).contains("task_id"@) {
            let j = choose|j: int| 0 <= j < names.len() && #[trigger] names[j]@ == "task_id"@;
            assert(names[j]@.len() != "task_id"@.len() || names[j]@[0] != 't' || names[j]@[1]
                != 'a');
        }
    }
}

/// The body of a create holds only the listed task fields, each with the
/// value it has in the arguments.
pub proof fn law_create_body(
    config: BoardConfigView,
    policy: SecurityPolicyView,
    args: Map<Seq<char>, JsonValue>,
    now: u64,
)
    requires
        create_step(config, policy, args, now) is Call,
    ensures
        create_step(config, policy, args, now)->Call_0.body matches Some(body) && forall|k: Seq<char>|
            #[trigger] body.contains_key(k) ==> key_set(create_fields()).contains(k)
                && args.contains_key(k) && body[k] == args[k],
{
}

/// The order and wording of refusals: a read-only policy refuses first,
/// naming the action; then a used-up budget; then an action that would go
/// over it. A mutation goes ahead only when none of these holds.
pub proof fn law_refusal_order(policy: SecurityPolicyView, action: Seq<char>, now: u64)
    ensures
        !policy.can_act() ==> mutation_refusal(policy, action, now) == Some(
            failure("Security policy: read-only mode, cannot perform '"@ + action + "'"@),
        ),
        policy.can_act() && recent(policy.actions, now).len() >= policy.max_actions_per_hour
            ==> mutation_refusal(policy, action, now) == Some(
            failure("Rate limit exceeded: too many actions in the last hour"@),
        ),
        mutation_refusal(policy, action, now) is None <==> (policy.can_act() && recent(
            policy.actions,
            now,
        ).len() + 1 <= policy.max_actions_per_hour),
        policy_after_check(policy, now).actions == (if policy.can_act() && recent(
            policy.actions,
            now,
        ).len() < policy.max_actions_per_hour {
            recent(policy.actions, now).push(now)
        } else {
            policy.actions
        }),
{
}

} // verus!

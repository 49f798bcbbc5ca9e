use board_tools::config::{BoardConfig, Config};
use board_tools::http::{ApiRequest, HttpMethod, HttpOutcome};
use board_tools::json::{JsonNumber, JsonObject, JsonValue};
use board_tools::result::ToolResult;
use board_tools::security::{AutonomyLevel, SecurityPolicy};
use board_tools::text::u64_to_decimal;
use board_tools::tools::board_create::BoardCreateTool;
use board_tools::tools::board_delete::BoardDeleteTool;
use board_tools::tools::board_list::{build_list_query, BoardListTool};
use board_tools::tools::board_summary::BoardSummaryTool;
use board_tools::tools::board_update::BoardUpdateTool;
use board_tools::tools::ToolStep;

fn config(enabled: bool) -> Config {
    Config {
        board: BoardConfig {
            enabled,
            api_url: "http://board.local".to_string(),
            api_key: "SECRET-REDACTED".to_string(),
        },
    }
}

fn full(max: u32) -> SecurityPolicy {
    SecurityPolicy::new(AutonomyLevel::Full, max)
}

fn text(s: &str) -> JsonValue {
    JsonValue::Str(s.to_string())
}

fn args(pairs: Vec<(&str, JsonValue)>) -> JsonObject {
    let mut obj = JsonObject::new();
    for (k, v) in pairs {
        obj.insert(k.to_string(), v);
    }
    obj
}

fn done(step: ToolStep) -> ToolResult {
    match step {
        ToolStep::Done(r) => r,
        ToolStep::Call(req) => panic!("expected a result, got a request to {}", req.url),
    }
}

fn call(step: ToolStep) -> ApiRequest {
    match step {
        ToolStep::Call(req) => req,
        ToolStep::Done(r) => panic!("expected a request, got {:?}", r.error),
    }
}

fn assert_failure(r: &ToolResult, msg: &str) {
    assert!(!r.success);
    assert_eq!(r.output, "");
    assert_eq!(r.error.as_deref(), Some(msg));
}

fn body_keys(req: &ApiRequest) -> Vec<String> {
    let mut keys: Vec<String> =
        req.body.as_ref().unwrap().entries().iter().map(|(k, _)| k.clone()).collect();
    keys.sort();
    keys
}

#[test]
fn tool_names_and_descriptions() {
    let c = BoardCreateTool::new(config(true));
    let d = BoardDeleteTool::new(config(true));
    let u = BoardUpdateTool::new(config(true));
    let l = BoardListTool::new(config(true));
    let s = BoardSummaryTool::new(config(true));
    assert_eq!(c.name(), "board_create");
    assert_eq!(d.name(), "board_delete");
    assert_eq!(u.name(), "board_update");
    assert_eq!(l.name(), "board_list");
    assert_eq!(s.name(), "board_summary");
    assert_eq!(c.description(), "Create a new task on the board");
    assert_eq!(d.description(), "Delete a task from the board");
    assert_eq!(
        u.description(),
        "Update a task on the board — change status, priority, or add a result summary"
    );
    assert_eq!(l.description(), "List tasks on the board, optionally filtered by status");
    assert_eq!(
        s.description(),
        "Get a summary of the task board — counts by status, overdue, and stale tasks"
    );
}

#[test]
fn schemas_are_json_objects_with_the_expected_fields() {
    let create: serde_json::Value =
        serde_json::from_str(&BoardCreateTool::new(config(true)).parameters_schema())
            .unwrap();
    let props = create.get("properties").unwrap().as_object().unwrap();
    let mut names: Vec<&String> = props.keys().collect();
    names.sort();
    assert_eq!(
        names,
        vec![
            "category",
            "description",
            "due_date",
            "parent_task_id",
            "priority",
            "recurrence_key",
            "source",
            "title"
        ]
    );
    assert_eq!(create.get("required").unwrap().as_array().unwrap().len(), 1);
    assert_eq!(create.get("additionalProperties").unwrap().as_bool(), Some(false));

    let update: serde_json::Value =
        serde_json::from_str(&BoardUpdateTool::new(config(true)).parameters_schema())
            .unwrap();
    assert_eq!(update.get("required").unwrap().get(0).unwrap().as_str(), Some("task_id"));
    assert_eq!(update.get("properties").unwrap().as_object().unwrap().len(), 8);

    let delete: serde_json::Value =
        serde_json::from_str(&BoardDeleteTool::new(config(true)).parameters_schema())
            .unwrap();
    assert_eq!(delete.get("properties").unwrap().as_object().unwrap().len(), 1);

    let list: serde_json::Value =
        serde_json::from_str(&BoardListTool::new(config(true)).parameters_schema()).unwrap();
    assert!(list.get("properties").unwrap().get("limit").is_some());
    assert!(list.get("required").is_none());

    let summary: serde_json::Value =
        serde_json::from_str(&BoardSummaryTool::new(config(true)).parameters_schema()).unwrap();
    assert_eq!(summary.get("properties").unwrap().as_object().unwrap().len(), 0);
}

#[test]
fn disabled_board_answers_every_tool_without_a_request() {
    let msg = "board is disabled by config (board.enabled=false)";
    let c = BoardCreateTool::new(config(false));
    let mut c_policy = full(1);
    assert_failure(&done(c.begin_execute(&mut c_policy, args(vec![("title", text("a"))]), 10)), msg);
    let u = BoardUpdateTool::new(config(false));
    let mut u_policy = full(1);
    assert_failure(&done(u.begin_execute(&mut u_policy, args(vec![("task_id", text("t"))]), 10)), msg);
    let d = BoardDeleteTool::new(config(false));
    let mut d_policy = full(1);
    assert_failure(&done(d.begin_execute(&mut d_policy, args(vec![("task_id", text("t"))]), 10)), msg);
    assert_failure(&done(BoardListTool::new(config(false)).begin_execute(JsonObject::new())), msg);
    assert_failure(
        &done(BoardSummaryTool::new(config(false)).begin_execute(JsonObject::new())),
        msg,
    );
}

#[test]
fn disabled_board_does_not_use_the_budget() {
    let c = BoardCreateTool::new(config(false));
    let mut c_policy = full(1);
    done(c.begin_execute(&mut c_policy, JsonObject::new(), 10));
    done(c.begin_execute(&mut c_policy, JsonObject::new(), 10));
    assert_eq!(c_policy.recent_actions(10), 0);
    // The same policy used by an enabled tool still has its whole budget.
    let fresh = BoardCreateTool::new(config(true));
    call(fresh.begin_execute(&mut c_policy, JsonObject::new(), 10));
}

#[test]
fn mutating_tools_share_one_budget() {
    let mut policy = full(2);
    let c = BoardCreateTool::new(config(true));
    let u = BoardUpdateTool::new(config(true));
    let d = BoardDeleteTool::new(config(true));
    call(c.begin_execute(&mut policy, args(vec![("title", text("a"))]), 0));
    call(u.begin_execute(&mut policy, args(vec![("task_id", text("t"))]), 0));
    assert_eq!(policy.recent_actions(0), 2);
    assert_failure(
        &done(d.begin_execute(&mut policy, args(vec![("task_id", text("t"))]), 0)),
        "Rate limit exceeded: too many actions in the last hour",
    );
    assert_failure(
        &done(c.begin_execute(&mut policy, JsonObject::new(), 1)),
        "Rate limit exceeded: too many actions in the last hour",
    );
    let mut one = full(1);
    call(d.begin_execute(&mut one, args(vec![("task_id", text("t"))]), 0));
    assert_failure(
        &done(c.begin_execute(&mut one, JsonObject::new(), 0)),
        "Rate limit exceeded: too many actions in the last hour",
    );
}

#[test]
fn read_only_policy_refuses_mutations() {
    let ro = || SecurityPolicy::new(AutonomyLevel::ReadOnly, 100);
    let c = BoardCreateTool::new(config(true));
    let mut c_policy = ro();
    assert_failure(
        &done(c.begin_execute(&mut c_policy, JsonObject::new(), 1)),
        "Security policy: read-only mode, cannot perform 'board_create'",
    );
    let u = BoardUpdateTool::new(config(true));
    let mut u_policy = ro();
    assert_failure(
        &done(u.begin_execute(&mut u_policy, args(vec![("task_id", text("x"))]), 1)),
        "Security policy: read-only mode, cannot perform 'board_update'",
    );
    let d = BoardDeleteTool::new(config(true));
    let mut d_policy = ro();
    assert_failure(
        &done(d.begin_execute(&mut d_policy, args(vec![("task_id", text("x"))]), 1)),
        "Security policy: read-only mode, cannot perform 'board_delete'",
    );
}

#[test]
fn enforce_mutation_allowed_reports_the_action_name() {
    let c = BoardCreateTool::new(config(true));
    let mut c_policy = SecurityPolicy::new(AutonomyLevel::ReadOnly, 5);
    let r = c.enforce_mutation_allowed(&mut c_policy, "custom_action", 1).unwrap();
    assert_failure(&r, "Security policy: read-only mode, cannot perform 'custom_action'");
    let ok = BoardCreateTool::new(config(true));
    let mut ok_policy = SecurityPolicy::new(AutonomyLevel::Supervised, 5);
    assert!(ok.enforce_mutation_allowed(&mut ok_policy, "x", 1).is_none());
    assert_eq!(ok_policy.recent_actions(1), 1);
}

#[test]
fn budget_of_the_hour_is_enforced() {
    let c = BoardCreateTool::new(config(true));
    let mut c_policy = full(2);
    call(c.begin_execute(&mut c_policy, JsonObject::new(), 1000));
    call(c.begin_execute(&mut c_policy, JsonObject::new(), 1001));
    assert_failure(
        &done(c.begin_execute(&mut c_policy, JsonObject::new(), 1002)),
        "Rate limit exceeded: too many actions in the last hour",
    );
    // One hour after the first action it no longer counts.
    assert_failure(
        &done(c.begin_execute(&mut c_policy, JsonObject::new(), 4599)),
        "Rate limit exceeded: too many actions in the last hour",
    );
    call(c.begin_execute(&mut c_policy, JsonObject::new(), 4600));
}

#[test]
fn zero_budget_refuses_everything() {
    let d = BoardDeleteTool::new(config(true));
    let mut d_policy = full(0);
    assert_failure(
        &done(d.begin_execute(&mut d_policy, args(vec![("task_id", text("x"))]), 5)),
        "Rate limit exceeded: too many actions in the last hour",
    );
}

#[test]
fn security_policy_counts_and_expires_actions() {
    let mut p = full(3);
    assert!(p.can_act());
    assert_eq!(p.recent_actions(0), 0);
    assert!(p.record_action(10));
    assert!(p.record_action(20));
    assert_eq!(p.recent_actions(20), 2);
    assert!(!p.is_rate_limited(20));
    assert!(p.record_action(30));
    assert!(p.is_rate_limited(30));
    // Recording past the budget still records, and is refused.
    assert!(!p.record_action(40));
    assert_eq!(p.recent_actions(40), 4);
    // After an hour the early actions expire.
    assert_eq!(p.recent_actions(3610), 3);
    assert_eq!(p.recent_actions(3640), 0);
    assert!(!SecurityPolicy::new(AutonomyLevel::ReadOnly, 3).can_act());
}

#[test]
fn create_builds_the_post_request() {
    let c = BoardCreateTool::new(config(true));
    let mut c_policy = full(10);
    let a = args(vec![
        ("title", text("Buy milk")),
        ("priority", JsonValue::Number(JsonNumber::PosInt(2))),
        ("source", text("agent")),
        ("unknown", text("dropped")),
        ("parent_task_id", JsonValue::Null),
    ]);
    let req = call(c.begin_execute(&mut c_policy, a, 1));
    assert!(req.method == HttpMethod::Post);
    assert_eq!(req.url, "http://board.local/board/tasks");
    assert_eq!(req.authorization, "Bearer SECRET-REDACTED");
    assert!(req.task_id.is_none());
    assert_eq!(body_keys(&req), vec!["parent_task_id", "priority", "source", "title"]);
    let body = req.body.as_ref().unwrap();
    assert!(matches!(body.get("title"), Some(JsonValue::Str(s)) if s == "Buy milk"));
    assert!(matches!(
        body.get("priority"),
        Some(JsonValue::Number(JsonNumber::PosInt(2)))
    ));
    assert!(matches!(body.get("parent_task_id"), Some(JsonValue::Null)));
    assert!(body.get("unknown").is_none());
}

#[test]
fn create_with_no_arguments_sends_an_empty_body() {
    let c = BoardCreateTool::new(config(true));
    let mut c_policy = full(10);
    let req = call(c.begin_execute(&mut c_policy, JsonObject::new(), 1));
    assert!(body_keys(&req).is_empty());
}

#[test]
fn update_needs_a_string_task_id() {
    let msg = "Missing required 'task_id' parameter";
    let u = BoardUpdateTool::new(config(true));
    let mut u_policy = full(2);
    assert_failure(&done(u.begin_execute(&mut u_policy, args(vec![("title", text("x"))]), 1)), msg);
    assert_failure(
        &done(u.begin_execute(&mut u_policy, args(vec![("task_id", JsonValue::Number(JsonNumber::PosInt(7)))]), 2)),
        msg,
    );
    // Both refused calls were counted against the budget.
    assert_failure(
        &done(u.begin_execute(&mut u_policy, args(vec![("task_id", text("t1"))]), 3)),
        "Rate limit exceeded: too many actions in the last hour",
    );
}

#[test]
fn update_builds_the_put_request() {
    let u = BoardUpdateTool::new(config(true));
    let mut u_policy = full(10);
    let a = args(vec![
        ("task_id", text("abc-123")),
        ("status", text("done")),
        ("result_summary", text("all good")),
        ("source", text("agent")),
    ]);
    let req = call(u.begin_execute(&mut u_policy, a, 1));
    assert!(req.method == HttpMethod::Put);
    assert_eq!(req.url, "http://board.local/board/tasks/abc-123");
    assert_eq!(req.authorization, "Bearer SECRET-REDACTED");
    assert_eq!(req.task_id.as_deref(), Some("abc-123"));
    assert_eq!(body_keys(&req), vec!["result_summary", "status"]);
}

#[test]
fn delete_builds_the_delete_request() {
    let d = BoardDeleteTool::new(config(true));
    let mut d_policy = full(10);
    let req = call(d.begin_execute(&mut d_policy, args(vec![("task_id", text("t-9")), ("title", text("x"))]), 1));
    assert!(req.method == HttpMethod::Delete);
    assert_eq!(req.url, "http://board.local/board/tasks/t-9");
    assert!(req.body.is_none());
    assert_eq!(req.task_id.as_deref(), Some("t-9"));
    let d2 = BoardDeleteTool::new(config(true));
    let mut d2_policy = full(10);
    assert_failure(
        &done(d2.begin_execute(&mut d2_policy, JsonObject::new(), 1)),
        "Missing required 'task_id' parameter",
    );
}

#[test]
fn delete_answers() {
    let d = BoardDeleteTool::new(config(true));
    let mut d_policy = full(10);
    let req = call(d.begin_execute(&mut d_policy, args(vec![("task_id", text("t-9"))]), 1));
    let r = d.finish_execute(&req, HttpOutcome::Response { status: 204, body: String::new() });
    assert!(r.success);
    assert_eq!(r.output, "Task t-9 deleted");
    assert!(r.error.is_none());
    let r = d.finish_execute(&req, HttpOutcome::Response { status: 200, body: "{\"ok\":true}".to_string() });
    assert_eq!(r.output, "{\"ok\":true}");
    let r = d.finish_execute(&req, HttpOutcome::Response { status: 404, body: String::new() });
    assert_failure(&r, "Board API error 404 Not Found: ");
}

#[test]
fn list_query_strings() {
    let l = BoardListTool::new(config(true));
    let req = call(l.begin_execute(JsonObject::new()));
    assert!(req.method == HttpMethod::Get);
    assert_eq!(req.url, "http://board.local/board/tasks");
    assert!(req.body.is_none());
    let req = call(l.begin_execute(args(vec![("status", text("pending"))])));
    assert_eq!(req.url, "http://board.local/board/tasks?status=pending");
    let req = call(l.begin_execute(args(vec![("limit", JsonValue::Number(JsonNumber::PosInt(25)))])));
    assert_eq!(req.url, "http://board.local/board/tasks?limit=25");
    let req = call(l.begin_execute(args(vec![
        ("limit", JsonValue::Number(JsonNumber::PosInt(200))),
        ("status", text("done")),
    ])));
    assert_eq!(req.url, "http://board.local/board/tasks?status=done&limit=200");
    assert_eq!(req.authorization, "Bearer SECRET-REDACTED");
}

#[test]
fn list_ignores_arguments_of_the_wrong_kind() {
    let l = BoardListTool::new(config(true));
    let req = call(l.begin_execute(args(vec![
        ("status", JsonValue::Bool(true)),
        ("limit", JsonValue::Number(JsonNumber::NegInt(-5))),
    ])));
    assert_eq!(req.url, "http://board.local/board/tasks");
    let req = call(l.begin_execute(args(vec![
        ("limit", JsonValue::Number(JsonNumber::Float("2.5".to_string()))),
        ("status", text("archived")),
    ])));
    assert_eq!(req.url, "http://board.local/board/tasks?status=archived");
    let req = call(l.begin_execute(args(vec![("limit", text("10"))])));
    assert_eq!(req.url, "http://board.local/board/tasks");
}

#[test]
fn list_query_builder() {
    assert_eq!(build_list_query(None, None), "");
    assert_eq!(build_list_query(Some("a b"), None), "?status=a b");
    assert_eq!(build_list_query(None, Some(0)), "?limit=0");
    assert_eq!(build_list_query(Some("x"), Some(18446744073709551615)), "?status=x&limit=18446744073709551615");
}

#[test]
fn summary_request() {
    let s = BoardSummaryTool::new(config(true));
    let req = call(s.begin_execute(args(vec![("anything", text("ignored"))])));
    assert!(req.method == HttpMethod::Get);
    assert_eq!(req.url, "http://board.local/board/summary");
    assert!(req.body.is_none());
    assert!(req.task_id.is_none());
}

#[test]
fn answers_are_read_by_status() {
    let s = BoardSummaryTool::new(config(true));
    let r = s.finish_execute(HttpOutcome::Response { status: 200, body: "{\"pending\":3}".to_string() });
    assert!(r.success);
    assert_eq!(r.output, "{\"pending\":3}");
    assert!(r.error.is_none());
    let r = s.finish_execute(HttpOutcome::Response { status: 201, body: "made".to_string() });
    assert!(r.success);
    let r = s.finish_execute(HttpOutcome::Response { status: 299, body: "x".to_string() });
    assert!(r.success);
    let r = s.finish_execute(HttpOutcome::Response { status: 300, body: "moved".to_string() });
    assert_failure(&r, "Board API error 300 Multiple Choices: moved");
    let r = s.finish_execute(HttpOutcome::Response { status: 199, body: "x".to_string() });
    assert!(!r.success);
    let r = s.finish_execute(HttpOutcome::Response { status: 409, body: "duplicate".to_string() });
    assert_failure(&r, "Board API error 409 Conflict: duplicate");
    let r = s.finish_execute(HttpOutcome::Response { status: 599, body: "odd".to_string() });
    assert_failure(&r, "Board API error 599 <unknown status code>: odd");
    let r = s.finish_execute(HttpOutcome::Failed { error: "connection refused".to_string() });
    assert_failure(&r, "Board API request failed: connection refused");
}

#[test]
fn every_tool_reads_answers_the_same_way() {
    let outcome = || HttpOutcome::Response { status: 500, body: "boom".to_string() };
    let msg = "Board API error 500 Internal Server Error: boom";
    let c = BoardCreateTool::new(config(true));
    assert_failure(&c.finish_execute(outcome()), msg);
    let u = BoardUpdateTool::new(config(true));
    assert_failure(&u.finish_execute(outcome()), msg);
    let l = BoardListTool::new(config(true));
    assert_failure(&l.finish_execute(outcome()), msg);
    let ok = c.finish_execute(HttpOutcome::Response { status: 201, body: "{\"id\":\"n1\"}".to_string() });
    assert!(ok.success);
    assert_eq!(ok.output, "{\"id\":\"n1\"}");
}

#[test]
fn decimal_rendering() {
    assert_eq!(u64_to_decimal(0), "0");
    assert_eq!(u64_to_decimal(7), "7");
    assert_eq!(u64_to_decimal(10), "10");
    assert_eq!(u64_to_decimal(1234567890), "1234567890");
    assert_eq!(u64_to_decimal(u64::MAX), u64::MAX.to_string());
}

#[test]
fn json_object_insert_get_remove() {
    let mut o = JsonObject::new();
    assert!(o.get("a").is_none());
    o.insert("a".to_string(), text("1"));
    o.insert("b".to_string(), JsonValue::Bool(false));
    o.insert("a".to_string(), text("2"));
    assert_eq!(o.entries().len(), 2);
    assert!(matches!(o.get("a"), Some(JsonValue::Str(s)) if s == "2"));
    assert_eq!(o.get_str("a").as_deref(), Some("2"));
    assert_eq!(o.get_str("b"), None);
    assert_eq!(o.get_u64("b"), None);
    assert!(matches!(o.remove("a"), Some(JsonValue::Str(s)) if s == "2"));
    assert!(o.remove("a").is_none());
    assert!(o.get("a").is_none());
    assert_eq!(o.entries().len(), 1);
}

#[test]
fn json_select_keeps_listed_fields() {
    let o = args(vec![
        ("x", text("1")),
        ("y", JsonValue::Number(JsonNumber::PosInt(9))),
        ("z", JsonValue::Array(vec![JsonValue::Null])),
    ]);
    let s = o.select(&["z", "y", "w", "y"]);
    assert_eq!(s.entries().len(), 2);
    assert_eq!(s.get_u64("y"), Some(9));
    assert!(matches!(s.get("z"), Some(JsonValue::Array(v)) if v.len() == 1));
    assert!(s.get("x").is_none());
}

#[test]
fn json_scalar_readers() {
    assert_eq!(JsonValue::Number(JsonNumber::PosInt(3)).as_u64(), Some(3));
    assert_eq!(JsonValue::Number(JsonNumber::NegInt(-3)).as_u64(), None);
    assert_eq!(text("q").as_str().map(|s| s.as_str()), Some("q"));
    assert!(JsonValue::Null.as_str().is_none());
}

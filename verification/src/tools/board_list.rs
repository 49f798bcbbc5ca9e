//! Listing the tasks on the board.

use vstd::prelude::*;
use vstd::string::StringExecFns;
use crate::config::{BoardConfigView, Config};
use crate::http::{
    bearer, bearer_spec, interpret_response, response_result, ApiRequest, ApiRequestView,
    HttpMethod, HttpOutcome,
};
use crate::json::{arg_str, arg_u64, JsonObject, JsonValue};
use crate::result::{disabled_message, disabled_result, failure, ToolResult};
use crate::text::{decimal, owned, u64_to_decimal};
use crate::tools::{ToolStep, ToolStepView};

verus! {

/// Lists the tasks on the board, optionally filtered by status.
pub struct BoardListTool {
    config: Config,
}

impl View for BoardListTool {
    type V = BoardConfigView;

    closed spec fn view(&self) -> BoardConfigView {
        self.config@
    }
}

/// The query string for an optional status filter and an optional limit:
/// the parameters present, in that order, joined by `&` after a `?`;
/// nothing when neither is present.
pub open spec fn list_query(status: Option<Seq<char>>, limit: Option<u64>) -> Seq<char> {
    match (status, limit) {
        (None, None) => Seq::<char>::empty(),
        (Some(s), None) => "?status="@ + s,
        (None, Some(l)) => "?limit="@ + decimal(l as nat),
        (Some(s), Some(l)) => "?status="@ + s + "&limit="@ + decimal(l as nat),
    }
}

/// The first step of a list call with arguments `args`: the status filter
/// is used when it is a string, the limit when it is a non-negative
/// integer.
pub open spec fn list_step(config: BoardConfigView, args: Map<Seq<char>, JsonValue>) -> ToolStepView {
    if !config.enabled {
        ToolStepView::Done(failure(disabled_message()))
    } else {
        ToolStepView::Call(
            ApiRequestView {
                method: HttpMethod::Get,
                url: config.api_url + "/board/tasks"@ + list_query(
                    arg_str(args, "status"@),
                    arg_u64(args, "limit"@),
                ),
                authorization: bearer_spec(config.api_key),
                body: None,
                task_id: None,
            },
        )
    }
}

/// The parameter schema of the list tool, as JSON text.
pub open spec fn list_schema() -> Seq<char> {
    "{\"type\":\"object\",\"properties\":{\"status\":{\"type\":\"string\",\"description\":\"Filter by status: pending, in_progress, done, archived\",\"enum\":[\"pending\",\"in_progress\",\"done\",\"archived\"]},\"limit\":{\"type\":\"integer\",\"description\":\"Maximum number of tasks to return (default 50, max 200)\"}},\"additionalProperties\":false}"@
}

/// Builds the query string.
pub fn build_list_query(status: Option<&str>, limit: Option<u64>) -> (r: String)
    ensures
        r@ == list_query(
            match status {
                Some(s) => Some(s@),
                None => None,
            },
            limit,
        ),
{
    let mut q = String::new();
    match status {
        Some(s) => {
            q.append("?status=");
            q.append(s);
        },
        None => {},
    }
    match limit {
        Some(l) => {
            if status.is_some() {
                q.append("&limit=");
            } else {
                q.append("?limit=");
            }
            let digits = u64_to_decimal(l);
            q.append(digits.as_str());
        },
        None => {},
    }
    proof {
        assert(Seq::<char>::empty() + "?status="@ =~= "?status="@);
        assert(Seq::<char>::empty() + "?limit="@ =~= "?limit="@);
    }
    q
}

impl BoardListTool {
    pub fn new(config: Config) -> (r: BoardListTool)
        ensures
            r@ == config@,
    {
        BoardListTool { config }
    }

    pub fn name(&self) -> (r: &'static str)
        ensures
            r@ == "board_list"@,
    {
        "board_list"
    }

    pub fn description(&self) -> (r: &'static str)
        ensures
            r@ == "List tasks on the board, optionally filtered by status"@,
    {
        "List tasks on the board, optionally filtered by status"
    }

    /// The JSON schema of the arguments, as JSON text.
    pub fn parameters_schema(&self) -> (r: String)
        ensures
            r@ == list_schema(),
    {
        owned(
            "{\"type\":\"object\",\"properties\":{\"status\":{\"type\":\"string\",\"description\":\"Filter by status: pending, in_progress, done, archived\",\"enum\":[\"pending\",\"in_progress\",\"done\",\"archived\"]},\"limit\":{\"type\":\"integer\",\"description\":\"Maximum number of tasks to return (default 50, max 200)\"}},\"additionalProperties\":false}",
        )
    }

    /// First step of a list call: the result when the board is disabled,
    /// or the GET request for the tasks.
    pub fn begin_execute(&self, args: JsonObject) -> (r: ToolStep)
        ensures
            r@ == list_step(self@, args@),
            r@.well_formed(),
    {
        if !self.config.board.enabled {
            return ToolStep::Done(disabled_result());
        }
        let mut url = owned(self.config.board.api_url.as_str());
        url.append("/board/tasks");
        let status = args.get_str("status");
        let limit = args.get_u64("limit");
        let query = match &status {
            Some(s) => build_list_query(Some(s.as_str()), limit),
            None => build_list_query(None, limit),
        };
        url.append(query.as_str());
        proof {
            assert(url@ =~= self@.api_url + "/board/tasks"@ + list_query(
                arg_str(args@, "status"@),
                arg_u64(args@, "limit"@),
            ));
        }
        ToolStep::Call(
            ApiRequest {
                method: HttpMethod::Get,
                url,
                authorization: bearer(self.config.board.api_key.as_str()),
                body: None,
                task_id: None,
            },
        )
    }

    /// Second step of a list call: what the answer means.
    pub fn finish_execute(&self, outcome: HttpOutcome) -> (r: ToolResult)
        requires
            outcome@.status_valid(),
        ensures
            r@ == response_result(outcome@),
            r@.well_formed(),
    {
        interpret_response(outcome)
    }
}

/// A list request goes out exactly when the board is enabled; it is a GET
/// of the tasks collection, with no body, carrying the bearer token of the
/// configuration. A string `status` becomes `?status=` followed by that
/// string, whatever it is, and a non-negative integer `limit` becomes
/// `limit=` followed by its decimal digits, after the status when there is
/// one; arguments of any other kind add nothing.
pub proof fn law_list_request(config: BoardConfigView, args: Map<Seq<char>, JsonValue>)
    ensures
        list_step(config, args) is Call <==> config.enabled,
        list_step(config, args) matches ToolStepView::Call(req) ==> {
            &&& req.method == HttpMethod::Get
            &&& req.authorization == "Bearer "@ + config.api_key
            &&& req.body is None
            &&& req.task_id is None
            &&& match (arg_str(args, "status"@), arg_u64(args, "limit"@)) {
                (Some(st), Some(l)) => req.url == config.api_url + "/board/tasks?status="@ + st
                    + "&limit="@ + decimal(l as nat),
                (Some(st), None) => req.url == config.api_url + "/board/tasks?status="@ + st,
                (None, Some(l)) => req.url == config.api_url + "/board/tasks?limit="@ + decimal(
                    l as nat,
                ),
                (None, None) => req.url == config.api_url + "/board/tasks"@,
            }
        },
{
    reveal_strlit("/board/tasks");
    reveal_strlit("?status=");
    reveal_strlit("?limit=");
    reveal_strlit("/board/tasks?status=");
    reveal_strlit("/board/tasks?limit=");
    assert("/board/tasks"@ + "?status="@ =~= "/board/tasks?status="@);
    assert("/board/tasks"@ + "?limit="@ =~= "/board/tasks?limit="@);
    assert(config.api_url + "/board/tasks"@ + Seq::<char>::empty() =~= config.api_url
        + "/board/tasks"@);
    if list_step(config, args) is Call {
        let st = arg_str(args, "status"@);
        let li = arg_u64(args, "limit"@);
        match (st, li) {
            (Some(s), Some(l)) => {
                assert(config.api_url + "/board/tasks"@ + ("?status="@ + s + "&limit="@ + decimal(
                    l as nat,
                )) =~= config.api_url + "/board/tasks?status="@ + s + "&limit="@ + decimal(
                    l as nat,
                ));
            },
            (Some(s), None) => {
                assert(config.api_url + "/board/tasks"@ + ("?status="@ + s) =~= config.api_url
                    + "/board/tasks?status="@ + s);
            },
            (None, Some(l)) => {
                assert(config.api_url + "/board/tasks"@ + ("?limit="@ + decimal(l as nat))
                    =~= config.api_url + "/board/tasks?limit="@ + decimal(l as nat));
            },
            (None, None) => {},
        }
    }
}

} // verus!

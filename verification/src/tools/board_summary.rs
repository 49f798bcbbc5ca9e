//! The summary of the board.

use vstd::prelude::*;
use vstd::string::StringExecFns;
use crate::config::{BoardConfigView, Config};
use crate::http::{
    bearer, bearer_spec, interpret_response, response_result, ApiRequest, ApiRequestView,
    HttpMethod, HttpOutcome,
};
use crate::json::JsonObject;
use crate::result::{disabled_message, disabled_result, failure, ToolResult};
use crate::text::owned;
use crate::tools::{ToolStep, ToolStepView};

verus! {

/// Gets a summary of the board: counts by status, overdue and stale tasks.
pub struct BoardSummaryTool {
    config: Config,
}

impl View for BoardSummaryTool {
    type V = BoardConfigView;

    closed spec fn view(&self) -> BoardConfigView {
        self.config@
    }
}

/// The first step of a summary call; the arguments play no part.
pub open spec fn summary_step(config: BoardConfigView) -> ToolStepView {
    if !config.enabled {
        ToolStepView::Done(failure(disabled_message()))
    } else {
        ToolStepView::Call(
            ApiRequestView {
                method: HttpMethod::Get,
                url: config.api_url + "/board/summary"@,
                authorization: bearer_spec(config.api_key),
                body: None,
                task_id: None,
            },
        )
    }
}

/// The parameter schema of the summary tool, as JSON text.
pub open spec fn summary_schema() -> Seq<char> {
    "{\"type\":\"object\",\"properties\":{},\"additionalProperties\":false}"@
}

impl BoardSummaryTool {
    pub fn new(config: Config) -> (r: BoardSummaryTool)
        ensures
            r@ == config@,
    {
        BoardSummaryTool { config }
    }

    pub fn name(&self) -> (r: &'static str)
        ensures
            r@ == "board_summary"@,
    {
        "board_summary"
    }

    pub fn description(&self) -> (r: &'static str)
        ensures
            r@ == "Get a summary of the task board — counts by status, overdue, and stale tasks"@,
    {
        "Get a summary of the task board — counts by status, overdue, and stale tasks"
    }

    /// The JSON schema of the arguments, as JSON text.
    pub fn parameters_schema(&self) -> (r: String)
        ensures
            r@ == summary_schema(),
    {
        owned("{\"type\":\"object\",\"properties\":{},\"additionalProperties\":false}")
    }

    /// First step of a summary call: the result when the board is
    /// disabled, or the GET request for the summary.
    pub fn begin_execute(&self, args: JsonObject) -> (r: ToolStep)
        ensures
            r@ == summary_step(self@),
            r@.well_formed(),
    {
        if !self.config.board.enabled {
            return ToolStep::Done(disabled_result());
        }
        let mut url = owned(self.config.board.api_url.as_str());
        url.append("/board/summary");
        ToolStep::Call(
            ApiRequest {
                method: HttpMethod::Get,
                url,
                authorization: bearer(self.config.board.api_key.as_str()),
                body: None,
                task_id: None,
            },
        )
    }

    /// Second step of a summary call: what the answer means.
    pub fn finish_execute(&self, outcome: HttpOutcome) -> (r: ToolResult)
        requires
            outcome@.status_valid(),
        ensures
            r@ == response_result(outcome@),
            r@.well_formed(),
    {
        interpret_response(outcome)
    }
}

/// A summary request goes out exactly when the board is enabled, whatever
/// the arguments; it is a GET of the summary, with no body, carrying the
/// bearer token of the configuration.
pub proof fn law_summary_request(config: BoardConfigView)
    ensures
        summary_step(config) is Call <==> config.enabled,
        summary_step(config) matches ToolStepView::Call(req) ==> {
            &&& req.method == HttpMethod::Get
            &&& req.url == config.api_url + "/board/summary"@
            &&& req.authorization == "Bearer "@ + config.api_key
            &&& req.body is None
            &&& req.task_id is None
        },
{
}

} // verus!

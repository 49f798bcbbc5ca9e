# board_tools

Tools an agent uses to work with a task board service: create, update,
delete, list and summarise tasks.

- `src/` is the verified library (Verus). Each tool runs in two steps:
  `begin_execute` decides from the configuration, the security policy and
  the JSON arguments either the final result or the HTTP request to send;
  `finish_execute` turns the service's answer into a `ToolResult`.
  - `config`: the board settings (enabled, API URL, API key).
  - `security`: autonomy level and an hourly action budget kept in a
    sliding window of action times. The mutating tools take the policy as
    `&mut SecurityPolicy`, so one policy (one budget) serves all of them.
  - `json`: the JSON value model and `JsonObject`, a map with unique keys.
  - `http`: request and answer types; status codes are read with reqwest.
  - `result`: `ToolResult` and the failure messages.
  - `tools`: the five tools and the shared check for mutating actions.
- `app/` wraps the library tools as asynchronous tools: it converts
  `serde_json` values, reads the clock and sends the requests with reqwest.
- `tests/` runs the library on concrete inputs.

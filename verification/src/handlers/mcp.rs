//! The methods of the protocol, each answering with a response envelope.
use crate::calendar::{Instant, InstantView};
use crate::json::{find_member, optional_view, Json, JsonView};
use crate::mcp::messages::{JsonRpcError};
use crate::mcp::server::{
    call_tool, get_prompt, initialize, initialize_result, list_prompts, list_resources,
    list_tools, listing, prompt_documents, prompts_get_outcome, read_resource,
    resource_documents, resources_read_outcome, rpc_outcome, tool_array, tool_documents,
    tools_call_outcome, MethodOutcome,
};
use crate::mcp::{PromptHandler, ResourceHandler, ToolHandler};
use crate::models::{
    error_envelope, error_json, success_envelope, success_json, McpError, JSONRPC_VERSION,
};
use crate::time_tools::{
    prompt_catalog, resource_catalog, time_formats, tool_catalog, tool_outcome, TimeToolsHandler,
};
use crate::tools::{rendered, text_outcome, ToolError};
use vstd::prelude::*;

verus! {

/// The methods of the protocol.
pub struct McpHandlers;

/// The envelope that carries an outcome back to the request `id`.
pub open spec fn envelope(id: JsonView, outcome: MethodOutcome) -> JsonView {
    match outcome {
        Ok(result) => success_envelope(id, result),
        Err(error) => error_envelope(id, error.code, error.message),
    }
}

/// Every envelope carries the request's identifier and the protocol's tag,
/// and holds a result or an error, never both and never neither.
pub proof fn lemma_envelope_holds_one(id: JsonView, outcome: MethodOutcome)
    ensures
        envelope(id, outcome).member("id"@) == Some(id),
        envelope(id, outcome).member("jsonrpc"@) == Some(JsonView::Str(JSONRPC_VERSION@)),
        envelope(id, outcome).member("result"@) is Some <==> outcome is Ok,
        envelope(id, outcome).member("error"@) is Some <==> outcome is Err,
        outcome matches Ok(result) ==> envelope(id, outcome).member("result"@) == Some(result),
{
    reveal_strlit("id");
    reveal_strlit("jsonrpc");
    reveal_strlit("result");
    reveal_strlit("error");
    assert("id"@.len() == 2 && "jsonrpc"@.len() == 7 && "result"@.len() == 6 && "error"@.len() == 5);
    let members = envelope(id, outcome)->Object_0;
    let rest1 = members.drop_first();
    let rest2 = rest1.drop_first();
    let rest3 = rest2.drop_first();
    assert(members.len() == 3);
    assert(rest1[0] == members[1]);
    assert(rest2[0] == members[2]);
    assert(rest3.len() == 0);
    assert forall|key: Seq<char>| #[trigger]
        find_member(members, key) == if members[0].0 == key {
            Some(members[0].1)
        } else if members[1].0 == key {
            Some(members[1].1)
        } else if members[2].0 == key {
            Some(members[2].1)
        } else {
            None
        } by {
        assert(find_member(rest3, key) is None);
        assert(find_member(rest2, key) == if rest2[0].0 == key {
            Some(rest2[0].1)
        } else {
            find_member(rest3, key)
        });
        assert(find_member(rest1, key) == if rest1[0].0 == key {
            Some(rest1[0].1)
        } else {
            find_member(rest2, key)
        });
    }
}

impl McpHandlers {
    /// The envelope that carries an outcome back to the request `id`.
    pub fn respond(id: Json, outcome: Result<Json, JsonRpcError>) -> (response: Json)
        ensures
            response@ == envelope(id@, rpc_outcome(outcome)),
    {
        match outcome {
            Ok(result) => success_json(id, result),
            Err(error) => error_json(id, &McpError::new(error.code, error.message.as_str())),
        }
    }

    /// Answers `initialize`: it always succeeds.
    pub fn handle_initialize(id: Json, params: Option<Json>) -> (response: Json)
        ensures
            response@ == success_envelope(id@, initialize_result(optional_view(params))),
    {
        success_json(id, initialize(params.as_ref()))
    }

    /// Answers `tools/list` with the catalog's tools.
    pub fn handle_tools_list(id: Json) -> (response: Json)
        ensures
            response@ == success_envelope(id@, listing("tools"@, tool_documents(tool_catalog()))),
    {
        success_json(id, list_tools(&TimeToolsHandler::new().list_tools()))
    }

    /// Answers `tools/call` as if the clock read `now`.
    pub fn handle_tools_call_at(id: Json, params: Option<Json>, now: &Instant) -> (response: Json)
        ensures
            response@ == envelope(id@, tools_call_outcome(optional_view(params), now@)),
    {
        Self::respond(id, call_tool(&TimeToolsHandler::new(), params.as_ref(), now))
    }

    /// Answers `tools/call`. The clock is read once.
    pub fn handle_tools_call(id: Json, params: Option<Json>) -> (response: Json)
        ensures
            exists|now: InstantView|
                now.representable() && response@ == envelope(
                    id@,
                    #[trigger] tools_call_outcome(optional_view(params), now),
                ),
    {
        let now = Instant::now();
        proof {
            use_type_invariant(&now);
        }
        Self::handle_tools_call_at(id, params, &now)
    }

    /// Answers `resources/list` with the catalog's resources.
    pub fn handle_resources_list(id: Json) -> (response: Json)
        ensures
            response@ == success_envelope(
                id@,
                listing("resources"@, resource_documents(resource_catalog())),
            ),
    {
        success_json(id, list_resources(&TimeToolsHandler::new().list_resources()))
    }

    /// Answers `resources/read`.
    pub fn handle_resources_read(id: Json, params: Option<Json>) -> (response: Json)
        ensures
            response@ == envelope(id@, resources_read_outcome(optional_view(params))),
    {
        Self::respond(id, read_resource(&TimeToolsHandler::new(), params.as_ref()))
    }

    /// Answers `prompts/list` with the catalog's prompts.
    pub fn handle_prompts_list(id: Json) -> (response: Json)
        ensures
            response@ == success_envelope(
                id@,
                listing("prompts"@, prompt_documents(prompt_catalog())),
            ),
    {
        success_json(id, list_prompts(&TimeToolsHandler::new().list_prompts()))
    }

    /// Answers `prompts/get` as if the clock read `now`.
    pub fn handle_prompts_get_at(id: Json, params: Option<Json>, now: &Instant) -> (response:
        Json)
        ensures
            response@ == envelope(id@, prompts_get_outcome(optional_view(params), now@)),
    {
        Self::respond(id, get_prompt(&TimeToolsHandler::new(), params.as_ref(), now))
    }

    /// Answers `prompts/get`. The clock is read once.
    pub fn handle_prompts_get(id: Json, params: Option<Json>) -> (response: Json)
        ensures
            exists|now: InstantView|
                now.representable() && response@ == envelope(
                    id@,
                    #[trigger] prompts_get_outcome(optional_view(params), now),
                ),
    {
        let now = Instant::now();
        proof {
            use_type_invariant(&now);
        }
        Self::handle_prompts_get_at(id, params, &now)
    }

    /// Runs the tool `name` as if the clock read `now`, and writes its
    /// document as JSON text.
    pub fn execute_tool_at(name: &str, arguments: &Json, now: &Instant) -> (result: Result<
        String,
        ToolError,
    >)
        ensures
            text_outcome(result) == rendered(tool_outcome(name@, arguments@, now@)),
    {
        match TimeToolsHandler::new().handle_tool_call_at(name, arguments, now) {
            Ok(document) => Ok(document.to_text()),
            Err(error) => Err(error),
        }
    }

    /// Runs the tool `name` and writes its document as JSON text. The clock
    /// is read once.
    pub fn execute_tool(name: &str, arguments: Json) -> (result: Result<String, ToolError>)
        ensures
            exists|now: InstantView|
                now.representable() && text_outcome(result) == rendered(
                    #[trigger] tool_outcome(name@, arguments@, now),
                ),
    {
        let now = Instant::now();
        proof {
            use_type_invariant(&now);
        }
        Self::execute_tool_at(name, &arguments, &now)
    }

    /// The catalog's tools as the protocol lists them.
    pub fn get_tool_definitions() -> (definitions: Json)
        ensures
            definitions@ == JsonView::Array(tool_documents(tool_catalog())),
    {
        tool_array(&TimeToolsHandler::new().list_tools())
    }

    /// The resource `time_formats`.
    pub fn get_time_formats_resource() -> (document: Json)
        ensures
            document@ == time_formats(),
    {
        proof {
            reveal_strlit("time_formats");
            reveal_strlit("timezone_database");
            assert("time_formats"@.len() != "timezone_database"@.len());
        }
        match TimeToolsHandler::new().read_resource("time_formats") {
            Ok(document) => document,
            Err(_) => vstd::pervasive::unreached(),
        }
    }
}

} // verus!

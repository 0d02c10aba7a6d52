//! The HTTP binding: one endpoint for each operation, behind the
//! authentication guard.
use crate::auth::{header_view, verdict, AuthManager, Verdict};
use crate::calendar::{rfc3339_text, Instant, InstantView, Zone, UTC};
use crate::config::{ServerConfig, SERVER_VERSION};
use crate::json::{optional_view, Json, JsonView};
use crate::mcp::server::{
    initialize, initialize_result, resource_contents, tool_content,
};
use crate::mcp::ResourceHandler;
use crate::models::{McpRequest, TokenInfo};
use crate::time_tools::{
    prompt_outcome, resource_outcome, tool_outcome, TimeToolsHandler,
};
use vstd::prelude::*;

verus! {

/// What an endpoint answers: a JSON body, or the status of a refusal.
pub type Reply = Result<JsonView, int>;

/// What a function of the binding returned, as a reply.
pub open spec fn reply_view(result: Result<Json, u16>) -> Reply {
    match result {
        Ok(body) => Ok(body@),
        Err(status) => Err(status as int),
    }
}

/// A reply behind the guard: status 401 where the guard refuses.
pub open spec fn guarded(verdict: Verdict, reply: Reply) -> Reply {
    match verdict {
        Verdict::Accepted => reply,
        Verdict::Rejected(_) => Err(401),
    }
}

/// The body of the health endpoint at the instant `now`.
pub open spec fn health_body(now: InstantView) -> JsonView {
    JsonView::Object(
        seq![
            ("status"@, JsonView::Str("healthy"@)),
            ("timestamp"@, JsonView::Str(rfc3339_text(now.secs, now.nanos, UTC@))),
            ("version"@, JsonView::Str(SERVER_VERSION@)),
        ],
    )
}

/// The arguments of a request's body: the member given, or `null`.
pub open spec fn body_arguments(request: McpRequest) -> JsonView {
    match request.arguments {
        Some(arguments) => arguments@,
        None => JsonView::Null,
    }
}

/// What the tool endpoint answers, once past the guard: status 400 where no
/// tool is named, status 500 where the tool fails.
pub open spec fn tool_reply(request: McpRequest, now: InstantView) -> Reply {
    match request.name {
        None => Err(400),
        Some(name) => match tool_outcome(name@, body_arguments(request), now) {
            Ok(document) => Ok(tool_content(document)),
            Err(_) => Err(500),
        },
    }
}

/// What the resource endpoint answers, once past the guard: status 400 where
/// no resource is named, status 404 where the one named is not held.
pub open spec fn resource_reply(request: McpRequest) -> Reply {
    match request.uri {
        None => Err(400),
        Some(uri) => match resource_outcome(uri@) {
            Ok(document) => Ok(resource_contents(uri@, document)),
            Err(_) => Err(404),
        },
    }
}

/// What the prompt endpoint answers, once past the guard: status 400 where no
/// prompt is named, status 404 where the one named is not held.
pub open spec fn prompt_reply(request: McpRequest, now: InstantView) -> Reply {
    match request.name {
        None => Err(400),
        Some(name) => match prompt_outcome(name@, optional_view(request.arguments), now) {
            Ok(document) => Ok(document),
            Err(_) => Err(404),
        },
    }
}

/// The HTTP binding's endpoints.
pub struct HttpHandler {
    auth: AuthManager,
}

impl HttpHandler {
    /// The guard in front of the endpoints.
    pub closed spec fn guard(&self) -> AuthManager {
        self.auth
    }

    /// The guard's answer to a request with the given authorization header at
    /// the instant `now`.
    pub open spec fn verdict_at(&self, authorization: Option<&str>, now: InstantView) -> Verdict {
        verdict(self.guard().enabled(), self.guard().tokens(), header_view(authorization), now)
    }

    /// The endpoints behind a guard that is on where the settings say so, and
    /// whose table is empty.
    pub fn new(config: ServerConfig) -> (handler: HttpHandler)
        ensures
            handler.guard().well_formed(),
            handler.guard().enabled() == config.auth_enabled,
            handler.guard().tokens() == Map::<Seq<char>, TokenInfo>::empty(),
    {
        HttpHandler { auth: AuthManager::new(config.auth_enabled) }
    }

    /// Enters `token` in the guard's table.
    pub fn add_token(&mut self, token: String, info: TokenInfo)
        requires
            old(self).guard().well_formed(),
        ensures
            final(self).guard().well_formed(),
            final(self).guard().enabled() == old(self).guard().enabled(),
            final(self).guard().tokens() == old(self).guard().tokens().insert(token@, info),
    {
        self.auth.add_token(token, info);
    }

    /// Whether the guard lets a request with the given header pass at `now`;
    /// the status of the refusal where it does not.
    fn pass(&self, authorization: Option<&str>, now: &Instant) -> (result: Result<(), u16>)
        requires
            self.guard().well_formed(),
        ensures
            match result {
                Ok(()) => self.verdict_at(authorization, now@) is Accepted,
                Err(status) => status == 401 && self.verdict_at(authorization, now@) is Rejected,
            },
    {
        match self.auth.authenticate_at(authorization, now) {
            Ok(()) => Ok(()),
            Err(error) => Err(error.http_status()),
        }
    }

    /// The health endpoint: it is not behind the guard.
    pub fn health_check_at(now: &Instant) -> (body: Json)
        ensures
            body@ == health_body(now@),
    {
        Json::object3(
            "status",
            Json::string("healthy"),
            "timestamp",
            Json::Str(now.to_rfc3339_in(&Zone::utc())),
            "version",
            Json::string(SERVER_VERSION),
        )
    }

    /// The capabilities endpoint: what `initialize` answers a client that
    /// asks for no version.
    pub fn get_capabilities_at(&self, authorization: Option<&str>, now: &Instant) -> (result:
        Result<Json, u16>)
        requires
            self.guard().well_formed(),
        ensures
            reply_view(result) == guarded(
                self.verdict_at(authorization, now@),
                Ok(initialize_result(None)),
            ),
    {
        match self.pass(authorization, now) {
            Ok(()) => Ok(initialize(None)),
            Err(status) => Err(status),
        }
    }

    /// The tool endpoint.
    pub fn call_tool_at(&self, authorization: Option<&str>, request: &McpRequest, now: &Instant) -> (result:
        Result<Json, u16>)
        requires
            self.guard().well_formed(),
        ensures
            reply_view(result) == guarded(
                self.verdict_at(authorization, now@),
                tool_reply(*request, now@),
            ),
    {
        if let Err(status) = self.pass(authorization, now) {
            return Err(status);
        }
        let name = match &request.name {
            Some(name) => name.as_str(),
            None => {
                return Err(400);
            },
        };
        let outcome = match &request.arguments {
            Some(arguments) => TimeToolsHandler::new().handle_tool_call_at(name, arguments, now),
            None => TimeToolsHandler::new().handle_tool_call_at(name, &Json::Null, now),
        };
        match outcome {
            Ok(document) => Ok(
                Json::object1(
                    "content",
                    Json::single(
                        Json::object2(
                            "text",
                            Json::Str(document.to_text()),
                            "type",
                            Json::string("text"),
                        ),
                    ),
                ),
            ),
            Err(_) => Err(500),
        }
    }

    /// The resource endpoint.
    pub fn read_resource_at(&self, authorization: Option<&str>, request: &McpRequest, now: &Instant) -> (result:
        Result<Json, u16>)
        requires
            self.guard().well_formed(),
        ensures
            reply_view(result) == guarded(
                self.verdict_at(authorization, now@),
                resource_reply(*request),
            ),
    {
        if let Err(status) = self.pass(authorization, now) {
            return Err(status);
        }
        let uri = match &request.uri {
            Some(uri) => uri.as_str(),
            None => {
                return Err(400);
            },
        };
        match TimeToolsHandler::new().read_resource(uri) {
            Ok(document) => Ok(
                Json::object1(
                    "contents",
                    Json::single(
                        Json::object3(
                            "mimeType",
                            Json::string("application/json"),
                            "text",
                            Json::Str(document.to_text()),
                            "uri",
                            Json::string(uri),
                        ),
                    ),
                ),
            ),
            Err(_) => Err(404),
        }
    }

    /// The prompt endpoint.
    pub fn get_prompt_at(&self, authorization: Option<&str>, request: &McpRequest, now: &Instant) -> (result:
        Result<Json, u16>)
        requires
            self.guard().well_formed(),
        ensures
            reply_view(result) == guarded(
                self.verdict_at(authorization, now@),
                prompt_reply(*request, now@),
            ),
    {
        if let Err(status) = self.pass(authorization, now) {
            return Err(status);
        }
        let name = match &request.name {
            Some(name) => name.as_str(),
            None => {
                return Err(400);
            },
        };
        match TimeToolsHandler::new().get_prompt_at(name, request.arguments.as_ref(), now) {
            Ok(document) => Ok(document),
            Err(_) => Err(404),
        }
    }
}

} // verus!

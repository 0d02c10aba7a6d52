//! The protocol's vocabulary: descriptors of what the server offers, and the
//! interfaces between the dispatcher and what surrounds it.
use crate::json::{Json, JsonObject, JsonView};
use crate::tools::ToolError;
use vstd::prelude::*;

pub mod messages;
pub mod server;

verus! {

/// A tool that clients can call: its name, what it does, and the JSON schema
/// of its arguments.
#[derive(Debug)]
pub struct Tool {
    pub name: String,
    pub description: String,
    pub input_schema: Json,
}

/// A tool as a mathematical value.
pub struct ToolView {
    pub name: Seq<char>,
    pub description: Seq<char>,
    pub input_schema: JsonView,
}

impl View for Tool {
    type V = ToolView;

    open spec fn view(&self) -> ToolView {
        ToolView {
            name: self.name@,
            description: self.description@,
            input_schema: self.input_schema@,
        }
    }
}

impl ToolView {
    /// The tool as the protocol lists it.
    pub open spec fn document(self) -> JsonView {
        JsonView::Object(
            seq![
                ("description"@, JsonView::Str(self.description)),
                ("inputSchema"@, self.input_schema),
                ("name"@, JsonView::Str(self.name)),
            ],
        )
    }
}

impl Clone for Tool {
    fn clone(&self) -> (copy: Tool)
        ensures
            copy@ == self@,
    {
        Tool {
            name: self.name.clone(),
            description: self.description.clone(),
            input_schema: self.input_schema.clone(),
        }
    }
}

impl Tool {
    /// The tool as the protocol lists it.
    pub fn to_json(&self) -> (document: Json)
        ensures
            document@ == self@.document(),
    {
        Json::object3(
            "description",
            Json::string(self.description.as_str()),
            "inputSchema",
            self.input_schema.clone(),
            "name",
            Json::string(self.name.as_str()),
        )
    }
}

/// A resource that clients can read.
#[derive(Clone, Debug)]
pub struct Resource {
    pub uri: String,
    pub name: String,
    pub description: String,
    pub mime_type: Option<String>,
}

/// A resource as a mathematical value.
pub struct ResourceView {
    pub uri: Seq<char>,
    pub name: Seq<char>,
    pub description: Seq<char>,
    pub mime_type: Option<Seq<char>>,
}

impl View for Resource {
    type V = ResourceView;

    open spec fn view(&self) -> ResourceView {
        ResourceView {
            uri: self.uri@,
            name: self.name@,
            description: self.description@,
            mime_type: match self.mime_type {
                Some(mime) => Some(mime@),
                None => None,
            },
        }
    }
}

impl ResourceView {
    /// The resource as the protocol lists it. A resource without a media type
    /// is listed without the member.
    pub open spec fn document(self) -> JsonView {
        match self.mime_type {
            Some(mime) => JsonView::Object(
                seq![
                    ("description"@, JsonView::Str(self.description)),
                    ("mimeType"@, JsonView::Str(mime)),
                    ("name"@, JsonView::Str(self.name)),
                    ("uri"@, JsonView::Str(self.uri)),
                ],
            ),
            None => JsonView::Object(
                seq![
                    ("description"@, JsonView::Str(self.description)),
                    ("name"@, JsonView::Str(self.name)),
                    ("uri"@, JsonView::Str(self.uri)),
                ],
            ),
        }
    }
}

impl Resource {
    /// The resource as the protocol lists it.
    pub fn to_json(&self) -> (document: Json)
        ensures
            document@ == self@.document(),
    {
        match &self.mime_type {
            Some(mime) => Json::object4(
                "description",
                Json::string(self.description.as_str()),
                "mimeType",
                Json::string(mime.as_str()),
                "name",
                Json::string(self.name.as_str()),
                "uri",
                Json::string(self.uri.as_str()),
            ),
            None => Json::object3(
                "description",
                Json::string(self.description.as_str()),
                "name",
                Json::string(self.name.as_str()),
                "uri",
                Json::string(self.uri.as_str()),
            ),
        }
    }
}

/// An argument of a prompt.
#[derive(Clone, Debug)]
pub struct PromptArgument {
    pub name: String,
    pub description: String,
    pub required: bool,
}

/// An argument of a prompt as a mathematical value.
pub struct PromptArgumentView {
    pub name: Seq<char>,
    pub description: Seq<char>,
    pub required: bool,
}

impl View for PromptArgument {
    type V = PromptArgumentView;

    open spec fn view(&self) -> PromptArgumentView {
        PromptArgumentView {
            name: self.name@,
            description: self.description@,
            required: self.required,
        }
    }
}

impl PromptArgumentView {
    /// The argument as the protocol lists it.
    pub open spec fn document(self) -> JsonView {
        JsonView::Object(
            seq![
                ("description"@, JsonView::Str(self.description)),
                ("name"@, JsonView::Str(self.name)),
                ("required"@, JsonView::Bool(self.required)),
            ],
        )
    }
}

impl PromptArgument {
    /// The argument as the protocol lists it.
    pub fn to_json(&self) -> (document: Json)
        ensures
            document@ == self@.document(),
    {
        Json::object3(
            "description",
            Json::string(self.description.as_str()),
            "name",
            Json::string(self.name.as_str()),
            "required",
            Json::Bool(self.required),
        )
    }
}

/// A template from which clients can have a text made.
#[derive(Clone, Debug)]
pub struct Prompt {
    pub name: String,
    pub description: String,
    pub arguments: Vec<PromptArgument>,
}

/// A prompt as a mathematical value.
pub struct PromptView {
    pub name: Seq<char>,
    pub description: Seq<char>,
    pub arguments: Seq<PromptArgumentView>,
}

impl View for Prompt {
    type V = PromptView;

    open spec fn view(&self) -> PromptView {
        PromptView {
            name: self.name@,
            description: self.description@,
            arguments: Seq::new(self.arguments.len() as nat, |i: int| self.arguments[i]@),
        }
    }
}

impl PromptView {
    /// The prompt as the protocol lists it.
    pub open spec fn document(self) -> JsonView {
        JsonView::Object(
            seq![
                (
                    "arguments"@,
                    JsonView::Array(
                        Seq::new(self.arguments.len(), |i: int| self.arguments[i].document()),
                    ),
                ),
                ("description"@, JsonView::Str(self.description)),
                ("name"@, JsonView::Str(self.name)),
            ],
        )
    }
}

impl Prompt {
    /// The prompt as the protocol lists it.
    pub fn to_json(&self) -> (document: Json)
        ensures
            document@ == self@.document(),
    {
        let mut arguments: Vec<Json> = Vec::new();
        let mut i: usize = 0;
        while i < self.arguments.len()
            invariant
                i <= self.arguments.len(),
                arguments.len() == i,
                forall|j: int| 0 <= j < i ==> arguments[j]@ == self.arguments[j]@.document(),
            decreases self.arguments.len() - i,
        {
            arguments.push(self.arguments[i].to_json());
            i += 1;
        }
        let listed = Json::Array(arguments);
        assert(listed@ =~= JsonView::Array(
            Seq::new(self@.arguments.len(), |i: int| self@.arguments[i].document()),
        )) by {
            assert(crate::json::items_view(arguments) =~= Seq::new(
                self@.arguments.len(),
                |i: int| self@.arguments[i].document(),
            ));
        }
        Json::object3(
            "arguments",
            listed,
            "description",
            Json::string(self.description.as_str()),
            "name",
            Json::string(self.name.as_str()),
        )
    }
}

/// Whether the list of tools can change while the server runs.
#[derive(Clone, Copy, Debug)]
pub struct ToolsCapability {
    pub list_changed: Option<bool>,
}

/// Whether resources can be subscribed to, and whether their list can change.
#[derive(Clone, Copy, Debug)]
pub struct ResourcesCapability {
    pub subscribe: Option<bool>,
    pub list_changed: Option<bool>,
}

/// Whether the list of prompts can change while the server runs.
#[derive(Clone, Copy, Debug)]
pub struct PromptsCapability {
    pub list_changed: Option<bool>,
}

/// What the server tells a client that it can do.
#[derive(Clone, Copy, Debug)]
pub struct ServerCapabilities {
    pub tools: Option<ToolsCapability>,
    pub resources: Option<ResourcesCapability>,
    pub prompts: Option<PromptsCapability>,
}

/// A flag as the member of a capability: present where the flag is set.
pub open spec fn flag_members(name: Seq<char>, flag: Option<bool>) -> Seq<(Seq<char>, JsonView)> {
    match flag {
        Some(value) => seq![(name, JsonView::Bool(value))],
        None => Seq::empty(),
    }
}

/// A capability as the member of the capabilities: present where the server
/// has it.
pub open spec fn capability_members(
    name: Seq<char>,
    flags: Option<Seq<(Seq<char>, JsonView)>>,
) -> Seq<(Seq<char>, JsonView)> {
    match flags {
        Some(members) => seq![(name, JsonView::Object(members))],
        None => Seq::empty(),
    }
}

/// What this server can do, as it announces it: tools, resources and
/// prompts, none of which changes or can be subscribed to.
pub open spec fn announced_capabilities() -> JsonView {
    JsonView::Object(
        seq![
            ("prompts"@, JsonView::Object(seq![("listChanged"@, JsonView::Bool(false))])),
            (
                "resources"@,
                JsonView::Object(
                    seq![
                        ("listChanged"@, JsonView::Bool(false)),
                        ("subscribe"@, JsonView::Bool(false)),
                    ],
                ),
            ),
            ("tools"@, JsonView::Object(seq![("listChanged"@, JsonView::Bool(false))])),
        ],
    )
}

impl ServerCapabilities {
    /// The capabilities as the protocol announces them.
    pub open spec fn document(self) -> JsonView {
        JsonView::Object(
            capability_members(
                "prompts"@,
                match self.prompts {
                    Some(p) => Some(flag_members("listChanged"@, p.list_changed)),
                    None => None,
                },
            ) + capability_members(
                "resources"@,
                match self.resources {
                    Some(r) => Some(
                        flag_members("listChanged"@, r.list_changed) + flag_members(
                            "subscribe"@,
                            r.subscribe,
                        ),
                    ),
                    None => None,
                },
            ) + capability_members(
                "tools"@,
                match self.tools {
                    Some(t) => Some(flag_members("listChanged"@, t.list_changed)),
                    None => None,
                },
            ),
        )
    }

    /// What this server can do: tools, resources and prompts, none of which
    /// changes or can be subscribed to.
    pub fn fixed() -> (capabilities: ServerCapabilities)
        ensures
            capabilities.tools == Some(ToolsCapability { list_changed: Some(false) }),
            capabilities.resources == Some(
                ResourcesCapability { subscribe: Some(false), list_changed: Some(false) },
            ),
            capabilities.prompts == Some(PromptsCapability { list_changed: Some(false) }),
    {
        ServerCapabilities {
            tools: Some(ToolsCapability { list_changed: Some(false) }),
            resources: Some(
                ResourcesCapability { subscribe: Some(false), list_changed: Some(false) },
            ),
            prompts: Some(PromptsCapability { list_changed: Some(false) }),
        }
    }

    /// The fixed capabilities are announced as three objects, each with its
    /// flags set to `false`.
    pub proof fn lemma_fixed_document(capabilities: ServerCapabilities)
        requires
            capabilities.tools == Some(ToolsCapability { list_changed: Some(false) }),
            capabilities.resources == Some(
                ResourcesCapability { subscribe: Some(false), list_changed: Some(false) },
            ),
            capabilities.prompts == Some(PromptsCapability { list_changed: Some(false) }),
        ensures
            capabilities.document() == announced_capabilities(),
    {
        let flags = seq![("listChanged"@, JsonView::Bool(false))];
        let both = seq![("listChanged"@, JsonView::Bool(false)), ("subscribe"@, JsonView::Bool(false))];
        assert(flag_members("listChanged"@, Some(false)) + flag_members("subscribe"@, Some(false))
            =~= both);
        assert(capability_members("prompts"@, Some(flags)) + capability_members(
            "resources"@,
            Some(both),
        ) + capability_members("tools"@, Some(flags)) =~= seq![
            ("prompts"@, JsonView::Object(flags)),
            ("resources"@, JsonView::Object(both)),
            ("tools"@, JsonView::Object(flags)),
        ]);
    }

    /// The capabilities as the protocol announces them.
    pub fn to_json(&self) -> (document: Json)
        ensures
            document@ == self.document(),
    {
        let prompts = match &self.prompts {
            Some(p) => Some(with_flag(JsonObject::new(), "listChanged", p.list_changed)),
            None => None,
        };
        let resources = match &self.resources {
            Some(r) => Some(
                with_flag(
                    with_flag(JsonObject::new(), "listChanged", r.list_changed),
                    "subscribe",
                    r.subscribe,
                ),
            ),
            None => None,
        };
        let tools = match &self.tools {
            Some(t) => Some(with_flag(JsonObject::new(), "listChanged", t.list_changed)),
            None => None,
        };
        let object = with_capability(
            with_capability(with_capability(JsonObject::new(), "prompts", prompts), "resources", resources),
            "tools",
            tools,
        );
        assert(object@ =~= self.document()->Object_0);
        object.into_json()
    }
}

/// The object with the flag added, where the flag is set.
fn with_flag(object: JsonObject, name: &str, flag: Option<bool>) -> (extended: JsonObject)
    ensures
        extended@ =~= object@ + flag_members(name@, flag),
{
    match flag {
        Some(value) => object.with_bool(name, value),
        None => object,
    }
}

/// The object with the capability added, where the server has it.
fn with_capability(object: JsonObject, name: &str, flags: Option<JsonObject>) -> (extended:
    JsonObject)
    ensures
        extended@ =~= object@ + capability_members(
            name@,
            match flags {
                Some(members) => Some(members@),
                None => None,
            },
        ),
{
    match flags {
        Some(members) => object.with(name, members.into_json()),
        None => object,
    }
}

/// Why a transport could not deliver or fetch a message.
#[derive(Debug)]
pub struct TransportError {
    pub message: String,
}

/// What carries messages between the server and one client.
pub trait Transport {
    /// What one call of `send_message` comes to: the transport before it,
    /// the message handed over, the transport after it and what was
    /// returned. A transport may say for itself which calls these are;
    /// one that does not says nothing of them.
    open spec fn sends(
        before: &Self,
        message: &messages::Message,
        after: &Self,
        sent: Result<(), TransportError>,
    ) -> bool {
        true
    }

    /// What one call of `receive_message` comes to: the transport before it,
    /// the transport after it and what was returned. A transport may say for
    /// itself which calls these are; one that does not says nothing of them.
    open spec fn receives(
        before: &Self,
        after: &Self,
        received: Result<Option<messages::Message>, TransportError>,
    ) -> bool {
        true
    }

    /// Hands one message to the client.
    fn send_message(&mut self, message: &messages::Message) -> (sent: Result<(), TransportError>)
        ensures
            Self::sends(old(self), message, final(self), sent),
    ;

    /// Waits for the client's next message; `None` when the client is gone.
    fn receive_message(&mut self) -> (received: Result<
        Option<messages::Message>,
        TransportError,
    >)
        ensures
            Self::receives(old(self), final(self), received),
    ;
}

/// What answers tool calls.
pub trait ToolHandler {
    /// Runs the tool `name` on `arguments`.
    fn handle_tool_call(&self, name: &str, arguments: Json) -> Result<Json, ToolError>;

    /// The tools on offer.
    fn list_tools(&self) -> Vec<Tool>;
}

/// What serves resources.
pub trait ResourceHandler {
    /// The content of the resource at `uri`.
    fn read_resource(&self, uri: &str) -> Result<Json, ToolError>;

    /// The resources on offer.
    fn list_resources(&self) -> Vec<Resource>;
}

/// What renders prompts.
pub trait PromptHandler {
    /// The prompt `name`, rendered with `arguments`.
    fn get_prompt(&self, name: &str, arguments: Option<Json>) -> Result<Json, ToolError>;

    /// The prompts on offer.
    fn list_prompts(&self) -> Vec<Prompt>;
}

} // verus!

//! The capability catalog: the tools, resources and prompts on offer, and
//! the handler that serves them from the time computation engine.
use crate::calendar::{
    registry_names, rfc3339_text, Instant, InstantView, Zone, REGISTRY_LEN, UTC,
};
use crate::json::{optional_view, strings_view, texts_view, Json, JsonView};
use crate::mcp::{
    Prompt, PromptArgument, PromptArgumentView, PromptHandler, PromptView, Resource,
    ResourceHandler, ResourceView, Tool, ToolHandler, ToolView,
};
use crate::text::{join, str_eq};
use crate::tools::{
    calculate_duration_report, convert_timezone_report, current_time_report, failure,
    format_time_report, list_timezones_report, text_or, timezone_info_report, value_outcome,
    Outcome, TimeTools, ToolError, ToolErrorKind, };
use vstd::prelude::*;
use vstd::string::*;

verus! {

/// The schema of an argument that is free text.
pub open spec fn text_parameter(description: Seq<char>) -> JsonView {
    JsonView::Object(
        seq![("description"@, JsonView::Str(description)), ("type"@, JsonView::Str("string"@))],
    )
}

/// The schema of an argument that is free text and has a default.
pub open spec fn defaulted_parameter(description: Seq<char>, default: Seq<char>) -> JsonView {
    JsonView::Object(
        seq![
            ("default"@, JsonView::Str(default)),
            ("description"@, JsonView::Str(description)),
            ("type"@, JsonView::Str("string"@)),
        ],
    )
}

/// The schema of an argument that is one of a few words.
pub open spec fn choice_parameter(description: Seq<char>, choices: Seq<Seq<char>>) -> JsonView {
    JsonView::Object(
        seq![
            ("description"@, JsonView::Str(description)),
            ("enum"@, JsonView::Array(strings_view(choices))),
            ("type"@, JsonView::Str("string"@)),
        ],
    )
}

/// The schema of an argument that is one of a few words and has a default.
pub open spec fn defaulted_choice_parameter(
    description: Seq<char>,
    choices: Seq<Seq<char>>,
    default: Seq<char>,
) -> JsonView {
    JsonView::Object(
        seq![
            ("default"@, JsonView::Str(default)),
            ("description"@, JsonView::Str(description)),
            ("enum"@, JsonView::Array(strings_view(choices))),
            ("type"@, JsonView::Str("string"@)),
        ],
    )
}

/// The schema of an argument bag: its arguments by name and, where some must
/// be given, their names.
pub open spec fn bag_schema(fields: Seq<(Seq<char>, JsonView)>, required: Seq<Seq<char>>) -> JsonView {
    if required.len() == 0 {
        JsonView::Object(
            seq![("properties"@, JsonView::Object(fields)), ("type"@, JsonView::Str("object"@))],
        )
    } else {
        JsonView::Object(
            seq![
                ("properties"@, JsonView::Object(fields)),
                ("required"@, JsonView::Array(strings_view(required))),
                ("type"@, JsonView::Str("object"@)),
            ],
        )
    }
}

/// The arguments that a tool cannot do without, as its schema lists them.
pub open spec fn required_arguments(tool: Seq<char>) -> Seq<Seq<char>> {
    if tool == "convert_timezone"@ {
        seq!["timestamp"@, "from_timezone"@, "to_timezone"@]
    } else if tool == "calculate_duration"@ {
        seq!["start_time"@, "end_time"@]
    } else if tool == "format_time"@ {
        seq!["timestamp"@, "format"@]
    } else if tool == "get_timezone_info"@ {
        seq!["timezone"@]
    } else {
        Seq::empty()
    }
}

/// The names of the six tools differ from one another.
pub proof fn lemma_tool_names_differ()
    ensures
        "get_current_time"@ != "convert_timezone"@,
        "get_current_time"@ != "calculate_duration"@,
        "get_current_time"@ != "format_time"@,
        "get_current_time"@ != "get_timezone_info"@,
        "get_current_time"@ != "list_timezones"@,
        "convert_timezone"@ != "calculate_duration"@,
        "convert_timezone"@ != "format_time"@,
        "convert_timezone"@ != "get_timezone_info"@,
        "convert_timezone"@ != "list_timezones"@,
        "calculate_duration"@ != "format_time"@,
        "calculate_duration"@ != "get_timezone_info"@,
        "calculate_duration"@ != "list_timezones"@,
        "format_time"@ != "get_timezone_info"@,
        "format_time"@ != "list_timezones"@,
        "get_timezone_info"@ != "list_timezones"@,
{
    reveal_strlit("get_current_time");
    reveal_strlit("convert_timezone");
    reveal_strlit("calculate_duration");
    reveal_strlit("format_time");
    reveal_strlit("get_timezone_info");
    reveal_strlit("list_timezones");
    assert("get_current_time"@.len() == 16);
    assert("convert_timezone"@.len() == 16);
    assert("calculate_duration"@.len() == 18);
    assert("format_time"@.len() == 11);
    assert("get_timezone_info"@.len() == 17);
    assert("list_timezones"@.len() == 14);
    assert("get_current_time"@[0] != "convert_timezone"@[0]);
}

/// Every argument that a tool's schema lists as required is one that the
/// engine asks for: a call without it, or with something that is no string in
/// its place, fails for want of a parameter.
pub proof fn lemma_required_arguments_are_enforced(
    tool: Seq<char>,
    args: JsonView,
    now: InstantView,
    i: int,
)
    requires
        0 <= i < required_arguments(tool).len(),
        args.str_member(required_arguments(tool)[i]) is None,
    ensures
        tool_outcome(tool, args, now) matches Err(error) && error.kind
            == ToolErrorKind::MissingParameter,
{
    lemma_tool_names_differ();
}

/// The tool `get_current_time`.
pub open spec fn current_time_tool() -> ToolView {
    ToolView {
        name: "get_current_time"@,
        description: "Get the current time in various formats and timezones"@,
        input_schema: bag_schema(
            seq![
                ("custom_format"@, text_parameter("Custom strftime format string"@)),
                (
                    "format"@,
                    defaulted_choice_parameter(
                        "Output format"@,
                        seq!["iso"@, "unix"@, "human"@, "custom"@],
                        "iso"@,
                    ),
                ),
                ("timezone"@, defaulted_parameter("Target timezone (default: UTC)"@, "UTC"@)),
            ],
            Seq::empty(),
        ),
    }
}

/// The tool `convert_timezone`.
pub open spec fn convert_timezone_tool() -> ToolView {
    ToolView {
        name: "convert_timezone"@,
        description: "Convert time between different timezones"@,
        input_schema: bag_schema(
            seq![
                ("from_timezone"@, text_parameter("Source timezone"@)),
                ("timestamp"@, text_parameter("Input timestamp (ISO 8601 or Unix)"@)),
                ("to_timezone"@, text_parameter("Target timezone"@)),
            ],
            required_arguments("convert_timezone"@),
        ),
    }
}

/// The tool `calculate_duration`.
pub open spec fn calculate_duration_tool() -> ToolView {
    ToolView {
        name: "calculate_duration"@,
        description: "Calculate time differences between two timestamps"@,
        input_schema: bag_schema(
            seq![
                ("end_time"@, text_parameter("End timestamp"@)),
                ("start_time"@, text_parameter("Start timestamp"@)),
                (
                    "units"@,
                    defaulted_choice_parameter(
                        "Output units"@,
                        seq!["seconds"@, "minutes"@, "hours"@, "days"@],
                        "seconds"@,
                    ),
                ),
            ],
            required_arguments("calculate_duration"@),
        ),
    }
}

/// The tool `format_time`.
pub open spec fn format_time_tool() -> ToolView {
    ToolView {
        name: "format_time"@,
        description: "Format timestamps according to various standards"@,
        input_schema: bag_schema(
            seq![
                ("custom_format"@, text_parameter("Custom format string"@)),
                (
                    "format"@,
                    choice_parameter(
                        "Format type"@,
                        seq!["iso8601"@, "rfc3339"@, "unix"@, "custom"@],
                    ),
                ),
                ("timestamp"@, text_parameter("Input timestamp"@)),
                ("timezone"@, defaulted_parameter("Target timezone"@, "UTC"@)),
            ],
            required_arguments("format_time"@),
        ),
    }
}

/// The tool `get_timezone_info`.
pub open spec fn timezone_info_tool() -> ToolView {
    ToolView {
        name: "get_timezone_info"@,
        description: "Retrieve timezone information and current offset"@,
        input_schema: bag_schema(
            seq![("timezone"@, text_parameter("Timezone identifier"@))],
            required_arguments("get_timezone_info"@),
        ),
    }
}

/// The tool `list_timezones`.
pub open spec fn list_timezones_tool() -> ToolView {
    ToolView {
        name: "list_timezones"@,
        description: "List available timezone identifiers"@,
        input_schema: bag_schema(
            seq![("region"@, text_parameter("Filter by region (e.g., 'America', 'Europe')"@))],
            Seq::empty(),
        ),
    }
}

/// The six tools on offer, in the order in which they are listed.
pub open spec fn tool_catalog() -> Seq<ToolView> {
    seq![
        current_time_tool(),
        convert_timezone_tool(),
        calculate_duration_tool(),
        format_time_tool(),
        timezone_info_tool(),
        list_timezones_tool(),
    ]
}

/// The two resources on offer.
pub open spec fn resource_catalog() -> Seq<ResourceView> {
    seq![
        ResourceView {
            uri: "timezone_database"@,
            name: "Timezone Database"@,
            description: "Complete IANA timezone database"@,
            mime_type: Some("application/json"@),
        },
        ResourceView {
            uri: "time_formats"@,
            name: "Time Formats"@,
            description: "Documentation of supported time formats"@,
            mime_type: Some("application/json"@),
        },
    ]
}

/// The one prompt on offer.
pub open spec fn prompt_catalog() -> Seq<PromptView> {
    seq![
        PromptView {
            name: "time_query_assistant"@,
            description: "Template for helping users with time-related queries"@,
            arguments: seq![
                PromptArgumentView {
                    name: "user_query"@,
                    description: "The user's time-related question"@,
                    required: true,
                },
            ],
        },
    ]
}

/// The outcome of calling the tool `name` on `args` at the instant `now`.
pub open spec fn tool_outcome(name: Seq<char>, args: JsonView, now: InstantView) -> Outcome {
    if name == "get_current_time"@ {
        current_time_report(args, now)
    } else if name == "convert_timezone"@ {
        convert_timezone_report(args)
    } else if name == "calculate_duration"@ {
        calculate_duration_report(args)
    } else if name == "format_time"@ {
        format_time_report(args)
    } else if name == "get_timezone_info"@ {
        timezone_info_report(args, now)
    } else if name == "list_timezones"@ {
        list_timezones_report(args)
    } else {
        failure(ToolErrorKind::UnknownTool, "Tool not found: "@ + name)
    }
}

/// The resource `timezone_database`: every name of the registry, and their
/// number.
pub open spec fn timezone_database() -> JsonView {
    JsonView::Object(
        seq![
            ("timezones"@, JsonView::Array(strings_view(registry_names()))),
            ("total_count"@, JsonView::Int(REGISTRY_LEN as int)),
        ],
    )
}

/// The resource `time_formats`: examples of the formats that the tools read
/// and write.
pub open spec fn time_formats() -> JsonView {
    JsonView::Object(
        seq![
            (
                "custom_format_strings"@,
                JsonView::Object(
                    seq![
                        (
                            "documentation"@,
                            JsonView::Str(
                                "Uses strftime format codes. Common codes: %Y=year, %m=month, %d=day, %H=hour(24h), %I=hour(12h), %M=minute, %S=second, %Z=timezone"@,
                            ),
                        ),
                        (
                            "examples"@,
                            JsonView::Array(
                                strings_view(
                                    seq![
                                        "%Y-%m-%d %H:%M:%S"@,
                                        "%B %d, %Y at %I:%M %p"@,
                                        "%A, %b %d, %Y"@,
                                    ],
                                ),
                            ),
                        ),
                    ],
                ),
            ),
            (
                "iso8601_examples"@,
                JsonView::Array(
                    strings_view(
                        seq![
                            "2025-08-17T18:30:00Z"@,
                            "2025-08-17T18:30:00.123Z"@,
                            "2025-08-17T14:30:00-04:00"@,
                        ],
                    ),
                ),
            ),
            (
                "locale_specific_formats"@,
                JsonView::Object(
                    seq![
                        ("eu"@, JsonView::Str("%d/%m/%Y %H:%M"@)),
                        ("iso"@, JsonView::Str("%Y-%m-%d %H:%M:%S"@)),
                        ("us"@, JsonView::Str("%m/%d/%Y %I:%M %p"@)),
                    ],
                ),
            ),
            (
                "rfc3339_examples"@,
                JsonView::Array(
                    strings_view(seq!["2025-08-17T18:30:00Z"@, "2025-08-17T18:30:00.123456Z"@]),
                ),
            ),
        ],
    )
}

/// The content of the resource at `uri`.
pub open spec fn resource_outcome(uri: Seq<char>) -> Outcome {
    if uri == "timezone_database"@ {
        Ok(timezone_database())
    } else if uri == "time_formats"@ {
        Ok(time_formats())
    } else {
        failure(ToolErrorKind::UnknownResource, "Unknown resource: "@ + uri)
    }
}

/// The question that a prompt is rendered for where its arguments name none.
pub const GENERAL_QUERY: &'static str = "general time query";

/// The text of the prompt `time_query_assistant` for a question at an instant.
pub open spec fn assistant_text(query: Seq<char>, now: InstantView) -> Seq<char> {
    "You are a time query assistant. Help the user with their time-related question: '"@ + query
        + "'. Current UTC time: "@ + rfc3339_text(now.secs, now.nanos, UTC@)
        + ". You have access to comprehensive timezone conversion and time formatting tools."@
}

/// The prompt `time_query_assistant`, rendered.
pub open spec fn assistant_prompt(query: Seq<char>, now: InstantView) -> JsonView {
    JsonView::Object(
        seq![
            ("description"@, JsonView::Str("Assistant for time-related queries"@)),
            (
                "messages"@,
                JsonView::Array(
                    seq![
                        JsonView::Object(
                            seq![
                                (
                                    "content"@,
                                    JsonView::Object(
                                        seq![
                                            ("text"@, JsonView::Str(assistant_text(query, now))),
                                            ("type"@, JsonView::Str("text"@)),
                                        ],
                                    ),
                                ),
                                ("role"@, JsonView::Str("system"@)),
                            ],
                        ),
                    ],
                ),
            ),
        ],
    )
}

/// The question among a prompt's arguments: the member `user_query` where it
/// is a string.
pub open spec fn query_of(arguments: Option<JsonView>) -> Seq<char> {
    match arguments {
        Some(bag) => text_or(bag.str_member("user_query"@), GENERAL_QUERY@),
        None => GENERAL_QUERY@,
    }
}

/// The prompt `name`, rendered with `arguments` at the instant `now`.
pub open spec fn prompt_outcome(name: Seq<char>, arguments: Option<JsonView>, now: InstantView) -> Outcome {
    if name == "time_query_assistant"@ {
        Ok(assistant_prompt(query_of(arguments), now))
    } else {
        failure(ToolErrorKind::UnknownPrompt, "Unknown prompt: "@ + name)
    }
}

/// The views of a list of tools.
pub open spec fn tools_view(tools: Vec<Tool>) -> Seq<ToolView> {
    Seq::new(tools.len() as nat, |i: int| tools[i]@)
}

/// The views of a list of resources.
pub open spec fn resources_view(resources: Vec<Resource>) -> Seq<ResourceView> {
    Seq::new(resources.len() as nat, |i: int| resources[i]@)
}

/// The views of a list of prompts.
pub open spec fn prompts_view(prompts: Vec<Prompt>) -> Seq<PromptView> {
    Seq::new(prompts.len() as nat, |i: int| prompts[i]@)
}

/// Two texts as a list.
fn texts2(a: &str, b: &str) -> (texts: Vec<String>)
    ensures
        texts_view(texts) == seq![a@, b@],
        texts.len() == 2,
{
    let mut texts: Vec<String> = Vec::new();
    texts.push(a.to_owned());
    texts.push(b.to_owned());
    assert(texts_view(texts) =~= seq![a@, b@]);
    texts
}

/// Three texts as a list.
fn texts3(a: &str, b: &str, c: &str) -> (texts: Vec<String>)
    ensures
        texts_view(texts) == seq![a@, b@, c@],
        texts.len() == 3,
{
    let mut texts: Vec<String> = Vec::new();
    texts.push(a.to_owned());
    texts.push(b.to_owned());
    texts.push(c.to_owned());
    assert(texts_view(texts) =~= seq![a@, b@, c@]);
    texts
}

/// Four texts as a list.
fn texts4(a: &str, b: &str, c: &str, d: &str) -> (texts: Vec<String>)
    ensures
        texts_view(texts) == seq![a@, b@, c@, d@],
        texts.len() == 4,
{
    let mut texts: Vec<String> = Vec::new();
    texts.push(a.to_owned());
    texts.push(b.to_owned());
    texts.push(c.to_owned());
    texts.push(d.to_owned());
    assert(texts_view(texts) =~= seq![a@, b@, c@, d@]);
    texts
}

/// The schema of an argument that is free text.
fn text_schema(description: &str) -> (schema: Json)
    ensures
        schema@ == text_parameter(description@),
{
    Json::object2("description", Json::string(description), "type", Json::string("string"))
}

/// The schema of an argument that is free text and has a default.
fn defaulted_schema(description: &str, default: &str) -> (schema: Json)
    ensures
        schema@ == defaulted_parameter(description@, default@),
{
    Json::object3(
        "default",
        Json::string(default),
        "description",
        Json::string(description),
        "type",
        Json::string("string"),
    )
}

/// The schema of an argument that is one of a few words.
fn choice_schema(description: &str, choices: &Vec<String>) -> (schema: Json)
    ensures
        schema@ == choice_parameter(description@, texts_view(*choices)),
{
    Json::object3(
        "description",
        Json::string(description),
        "enum",
        Json::strings(choices),
        "type",
        Json::string("string"),
    )
}

/// The schema of an argument that is one of a few words and has a default.
fn defaulted_choice_schema(description: &str, choices: &Vec<String>, default: &str) -> (schema:
    Json)
    ensures
        schema@ == defaulted_choice_parameter(description@, texts_view(*choices), default@),
{
    Json::object4(
        "default",
        Json::string(default),
        "description",
        Json::string(description),
        "enum",
        Json::strings(choices),
        "type",
        Json::string("string"),
    )
}

/// The schema of an argument bag of which nothing must be given.
fn open_schema(fields: Json) -> (schema: Json)
    requires
        fields@ is Object,
    ensures
        schema@ == bag_schema(fields@->Object_0, Seq::empty()),
{
    Json::object2("properties", fields, "type", Json::string("object"))
}

/// The schema of an argument bag of which some arguments must be given.
fn strict_schema(fields: Json, required: &Vec<String>) -> (schema: Json)
    requires
        fields@ is Object,
        required.len() > 0,
    ensures
        schema@ == bag_schema(fields@->Object_0, texts_view(*required)),
{
    Json::object3(
        "properties",
        fields,
        "required",
        Json::strings(required),
        "type",
        Json::string("object"),
    )
}

/// A tool of the catalog.
fn tool(name: &str, description: &str, input_schema: Json) -> (tool: Tool)
    ensures
        tool@ == (ToolView { name: name@, description: description@, input_schema: input_schema@ }),
{
    Tool { name: name.to_owned(), description: description.to_owned(), input_schema }
}

/// A resource of the catalog, served as JSON.
fn json_resource(uri: &str, name: &str, description: &str) -> (resource: Resource)
    ensures
        resource@ == (ResourceView {
            uri: uri@,
            name: name@,
            description: description@,
            mime_type: Some("application/json"@),
        }),
{
    Resource {
        uri: uri.to_owned(),
        name: name.to_owned(),
        description: description.to_owned(),
        mime_type: Some("application/json".to_owned()),
    }
}

/// The handler that serves the catalog from the time computation engine.
pub struct TimeToolsHandler;

impl TimeToolsHandler {
    /// The handler. It holds no state.
    pub fn new() -> (handler: TimeToolsHandler) {
        TimeToolsHandler
    }

    /// Runs the tool `name` on `arguments` as if the clock read `now`.
    pub fn handle_tool_call_at(&self, name: &str, arguments: &Json, now: &Instant) -> (result:
        Result<Json, ToolError>)
        ensures
            value_outcome(result) == tool_outcome(name@, arguments@, now@),
    {
        if str_eq(name, "get_current_time") {
            TimeTools::get_current_time_at(arguments, now)
        } else if str_eq(name, "convert_timezone") {
            TimeTools::convert_timezone_value(arguments)
        } else if str_eq(name, "calculate_duration") {
            TimeTools::calculate_duration_value(arguments)
        } else if str_eq(name, "format_time") {
            TimeTools::format_time_value(arguments)
        } else if str_eq(name, "get_timezone_info") {
            TimeTools::get_timezone_info_at(arguments, now)
        } else if str_eq(name, "list_timezones") {
            TimeTools::list_timezones_value(arguments)
        } else {
            Err(ToolError::new(ToolErrorKind::UnknownTool, join("Tool not found: ", name)))
        }
    }

    /// The prompt `name`, rendered with `arguments` as if the clock read
    /// `now`.
    pub fn get_prompt_at(&self, name: &str, arguments: Option<&Json>, now: &Instant) -> (result:
        Result<Json, ToolError>)
        ensures
            value_outcome(result) == prompt_outcome(
                name@,
                match arguments {
                    Some(bag) => Some(bag@),
                    None => None,
                },
                now@,
            ),
    {
        if !str_eq(name, "time_query_assistant") {
            return Err(
                ToolError::new(ToolErrorKind::UnknownPrompt, join("Unknown prompt: ", name)),
            );
        }
        let query = match arguments {
            Some(bag) => match bag.get_str("user_query") {
                Some(text) => text,
                None => GENERAL_QUERY,
            },
            None => GENERAL_QUERY,
        };
        let mut text = join(
            "You are a time query assistant. Help the user with their time-related question: '",
            query,
        );
        text.append("'. Current UTC time: ");
        let utc = Zone::utc();
        text.append(now.to_rfc3339_in(&utc).as_str());
        text.append(
            ". You have access to comprehensive timezone conversion and time formatting tools.",
        );
        let content = Json::object2("text", Json::Str(text), "type", Json::string("text"));
        let message = Json::object2("content", content, "role", Json::string("system"));
        let mut messages: Vec<Json> = Vec::new();
        messages.push(message);
        let listed = Json::Array(messages);
        assert(listed@ == JsonView::Array(seq![message@])) by {
            assert(crate::json::items_view(messages) =~= seq![message@]);
        }
        Ok(
            Json::object2(
                "description",
                Json::string("Assistant for time-related queries"),
                "messages",
                listed,
            ),
        )
    }
}

impl ToolHandler for TimeToolsHandler {
    /// Runs the tool `name` on `arguments`. The clock is read once.
    fn handle_tool_call(&self, name: &str, arguments: Json) -> (result: Result<Json, ToolError>)
        ensures
            exists|now: InstantView|
                now.representable() && value_outcome(result) == #[trigger] tool_outcome(
                    name@,
                    arguments@,
                    now,
                ),
    {
        let now = Instant::now();
        proof {
            use_type_invariant(&now);
        }
        self.handle_tool_call_at(name, &arguments, &now)
    }

    /// The six tools on offer.
    fn list_tools(&self) -> (tools: Vec<Tool>)
        ensures
            tools_view(tools) == tool_catalog(),
    {
        proof {
            lemma_tool_names_differ();
        }
        let mut tools: Vec<Tool> = Vec::new();
        tools.push(
            tool(
                "get_current_time",
                "Get the current time in various formats and timezones",
                open_schema(
                    Json::object3(
                        "custom_format",
                        text_schema("Custom strftime format string"),
                        "format",
                        defaulted_choice_schema(
                            "Output format",
                            &texts4("iso", "unix", "human", "custom"),
                            "iso",
                        ),
                        "timezone",
                        defaulted_schema("Target timezone (default: UTC)", "UTC"),
                    ),
                ),
            ),
        );
        tools.push(
            tool(
                "convert_timezone",
                "Convert time between different timezones",
                strict_schema(
                    Json::object3(
                        "from_timezone",
                        text_schema("Source timezone"),
                        "timestamp",
                        text_schema("Input timestamp (ISO 8601 or Unix)"),
                        "to_timezone",
                        text_schema("Target timezone"),
                    ),
                    &texts3("timestamp", "from_timezone", "to_timezone"),
                ),
            ),
        );
        tools.push(
            tool(
                "calculate_duration",
                "Calculate time differences between two timestamps",
                strict_schema(
                    Json::object3(
                        "end_time",
                        text_schema("End timestamp"),
                        "start_time",
                        text_schema("Start timestamp"),
                        "units",
                        defaulted_choice_schema(
                            "Output units",
                            &texts4("seconds", "minutes", "hours", "days"),
                            "seconds",
                        ),
                    ),
                    &texts2("start_time", "end_time"),
                ),
            ),
        );
        tools.push(
            tool(
                "format_time",
                "Format timestamps according to various standards",
                strict_schema(
                    Json::object4(
                        "custom_format",
                        text_schema("Custom format string"),
                        "format",
                        choice_schema(
                            "Format type",
                            &texts4("iso8601", "rfc3339", "unix", "custom"),
                        ),
                        "timestamp",
                        text_schema("Input timestamp"),
                        "timezone",
                        defaulted_schema("Target timezone", "UTC"),
                    ),
                    &texts2("timestamp", "format"),
                ),
            ),
        );
        let mut only_timezone: Vec<String> = Vec::new();
        only_timezone.push("timezone".to_owned());
        assert(texts_view(only_timezone) =~= seq!["timezone"@]);
        tools.push(
            tool(
                "get_timezone_info",
                "Retrieve timezone information and current offset",
                strict_schema(
                    Json::object1("timezone", text_schema("Timezone identifier")),
                    &only_timezone,
                ),
            ),
        );
        tools.push(
            tool(
                "list_timezones",
                "List available timezone identifiers",
                open_schema(
                    Json::object1(
                        "region",
                        text_schema("Filter by region (e.g., 'America', 'Europe')"),
                    ),
                ),
            ),
        );
        assert(tools_view(tools) =~= tool_catalog());
        tools
    }
}

impl ResourceHandler for TimeToolsHandler {
    /// The content of the resource at `uri`.
    fn read_resource(&self, uri: &str) -> (result: Result<Json, ToolError>)
        ensures
            value_outcome(result) == resource_outcome(uri@),
    {
        if str_eq(uri, "timezone_database") {
            let names = TimeTools::zones_in_region(None);
            let count = names.len();
            assert(texts_view(names).len() == REGISTRY_LEN);
            Ok(
                Json::object2(
                    "timezones",
                    Json::strings(&names),
                    "total_count",
                    Json::Int(count as i64),
                ),
            )
        } else if str_eq(uri, "time_formats") {
            let custom = Json::object2(
                "documentation",
                Json::string(
                    "Uses strftime format codes. Common codes: %Y=year, %m=month, %d=day, %H=hour(24h), %I=hour(12h), %M=minute, %S=second, %Z=timezone",
                ),
                "examples",
                Json::strings(
                    &texts3("%Y-%m-%d %H:%M:%S", "%B %d, %Y at %I:%M %p", "%A, %b %d, %Y"),
                ),
            );
            let locale = Json::object3(
                "eu",
                Json::string("%d/%m/%Y %H:%M"),
                "iso",
                Json::string("%Y-%m-%d %H:%M:%S"),
                "us",
                Json::string("%m/%d/%Y %I:%M %p"),
            );
            Ok(
                Json::object4(
                    "custom_format_strings",
                    custom,
                    "iso8601_examples",
                    Json::strings(
                        &texts3(
                            "2025-08-17T18:30:00Z",
                            "2025-08-17T18:30:00.123Z",
                            "2025-08-17T14:30:00-04:00",
                        ),
                    ),
                    "locale_specific_formats",
                    locale,
                    "rfc3339_examples",
                    Json::strings(&texts2("2025-08-17T18:30:00Z", "2025-08-17T18:30:00.123456Z")),
                ),
            )
        } else {
            Err(ToolError::new(ToolErrorKind::UnknownResource, join("Unknown resource: ", uri)))
        }
    }

    /// The two resources on offer.
    fn list_resources(&self) -> (resources: Vec<Resource>)
        ensures
            resources_view(resources) == resource_catalog(),
    {
        let mut resources: Vec<Resource> = Vec::new();
        resources.push(
            json_resource(
                "timezone_database",
                "Timezone Database",
                "Complete IANA timezone database",
            ),
        );
        resources.push(
            json_resource(
                "time_formats",
                "Time Formats",
                "Documentation of supported time formats",
            ),
        );
        assert(resources_view(resources) =~= resource_catalog());
        resources
    }
}

impl PromptHandler for TimeToolsHandler {
    /// The prompt `name`, rendered with `arguments`. The clock is read once.
    fn get_prompt(&self, name: &str, arguments: Option<Json>) -> (result: Result<Json, ToolError>)
        ensures
            exists|now: InstantView|
                now.representable() && value_outcome(result) == #[trigger] prompt_outcome(
                    name@,
                    optional_view(arguments),
                    now,
                ),
    {
        let now = Instant::now();
        proof {
            use_type_invariant(&now);
        }
        self.get_prompt_at(name, arguments.as_ref(), &now)
    }

    /// The one prompt on offer.
    fn list_prompts(&self) -> (prompts: Vec<Prompt>)
        ensures
            prompts_view(prompts) == prompt_catalog(),
    {
        let mut arguments: Vec<PromptArgument> = Vec::new();
        arguments.push(
            PromptArgument {
                name: "user_query".to_owned(),
                description: "The user's time-related question".to_owned(),
                required: true,
            },
        );
        let prompt = Prompt {
            name: "time_query_assistant".to_owned(),
            description: "Template for helping users with time-related queries".to_owned(),
            arguments,
        };
        assert(prompt@.arguments =~= prompt_catalog()[0].arguments);
        let mut prompts: Vec<Prompt> = Vec::new();
        prompts.push(prompt);
        assert(prompts_view(prompts) =~= prompt_catalog());
        prompts
    }
}

} // verus!

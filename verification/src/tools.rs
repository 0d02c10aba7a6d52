//! The time computation engine: six operations on an argument bag.
//!
//! For each operation a function of the model gives its outcome for every
//! argument bag (and, where it reads the clock, for every reading), and an
//! executable function is proved to return just that.
use crate::calendar::{
    carried_offset, chrono_instant, computed_offset, elapsed_seconds, iana_zone, registry_entry,
    registry_names, rfc3339_instant, rfc3339_text, strftime_text, truncated_quotient, Instant,
    InstantView, Zone, REGISTRY_LEN,
};
use crate::json::{find_member, json_text, strings_view, texts_view, Json, JsonView};
use crate::text::{
    decimal_i64, decimal_string, decimal_text, has_prefix, is_digit, join,
    lemma_padded_is_two_digits, padded_text, parse_i64, push_padded, starts_with, str_eq,
};
use vstd::prelude::*;
use vstd::string::*;

verus! {

/// Why an operation of the engine failed.
#[derive(Clone, Copy, Debug, PartialEq, Eq, Structural)]
pub enum ToolErrorKind {
    /// An argument that the operation needs is absent or is no string.
    MissingParameter,
    /// A time zone name that the registry does not hold.
    InvalidTimezone,
    /// A timestamp that is neither Unix seconds nor RFC 3339.
    InvalidTimestamp,
    /// An output format that the operation does not know, or a pattern that
    /// cannot be written.
    InvalidFormat,
    /// A unit of duration that is none of seconds, minutes, hours, days.
    InvalidUnits,
    /// A tool name that the engine does not offer.
    UnknownTool,
    /// A resource that the server does not hold.
    UnknownResource,
    /// A prompt that the server does not hold.
    UnknownPrompt,
}

/// A failure of the engine: its kind and the text that explains it.
#[derive(Debug)]
pub struct ToolError {
    pub kind: ToolErrorKind,
    pub message: String,
}

/// A failure of the engine as a mathematical value.
pub struct ToolErrorView {
    pub kind: ToolErrorKind,
    pub message: Seq<char>,
}

impl View for ToolError {
    type V = ToolErrorView;

    open spec fn view(&self) -> ToolErrorView {
        ToolErrorView { kind: self.kind, message: self.message@ }
    }
}

impl ToolError {
    /// A failure of the given kind with the given explanation.
    pub fn new(kind: ToolErrorKind, message: String) -> (error: ToolError)
        ensures
            error@ == (ToolErrorView { kind, message: message@ }),
    {
        ToolError { kind, message }
    }

    /// The explanation.
    pub fn to_string(&self) -> (text: String)
        ensures
            text@ == self@.message,
    {
        self.message.clone()
    }
}

/// The outcome of an operation: a JSON document or a failure.
pub type Outcome = Result<JsonView, ToolErrorView>;

/// What a function that returns a document returned, as an outcome.
pub open spec fn value_outcome(result: Result<Json, ToolError>) -> Outcome {
    match result {
        Ok(value) => Ok(value@),
        Err(error) => Err(error@),
    }
}

/// What a function that returns text returned.
pub open spec fn text_outcome(result: Result<String, ToolError>) -> Result<Seq<char>, ToolErrorView> {
    match result {
        Ok(text) => Ok(text@),
        Err(error) => Err(error@),
    }
}

/// An outcome with its document written as compact JSON text.
pub open spec fn rendered(outcome: Outcome) -> Result<Seq<char>, ToolErrorView> {
    match outcome {
        Ok(value) => Ok(json_text(value)),
        Err(error) => Err(error),
    }
}

/// A failure as an outcome.
pub open spec fn failure(kind: ToolErrorKind, message: Seq<char>) -> Outcome {
    Err(ToolErrorView { kind, message })
}

/// The text, or the fallback where there is none.
pub open spec fn text_or(text: Option<Seq<char>>, fallback: Seq<char>) -> Seq<char> {
    match text {
        Some(t) => t,
        None => fallback,
    }
}

/// The pattern of the long form that `get_current_time` writes.
pub const HUMAN_PATTERN: &'static str = "%A, %B %d, %Y at %I:%M %p %Z";

/// The pattern that writes a zone's abbreviation.
pub const ABBREVIATION_PATTERN: &'static str = "%Z";

/// The instant that a timestamp stands for. Text that spells a 64-bit integer
/// is taken as seconds since the Unix epoch, and is then never read as
/// RFC 3339; any other text is read as RFC 3339.
pub open spec fn timestamp_reading(text: Seq<char>) -> Result<InstantView, ToolErrorView> {
    match decimal_i64(text) {
        Some(secs) => if chrono_instant(secs as int, 0) {
            Ok(InstantView { secs: secs as int, nanos: 0 })
        } else {
            Err(
                ToolErrorView {
                    kind: ToolErrorKind::InvalidTimestamp,
                    message: "Invalid Unix timestamp"@,
                },
            )
        },
        None => match rfc3339_instant(text) {
            Some(pair) => Ok(InstantView { secs: pair.0, nanos: pair.1 }),
            None => Err(
                ToolErrorView {
                    kind: ToolErrorKind::InvalidTimestamp,
                    message: "Invalid timestamp format"@,
                },
            ),
        },
    }
}

/// An instant written after a pattern in a zone, as the member `formatted`
/// beside the zone's name; a failure where the pattern cannot be written.
pub open spec fn formatted_report(now: InstantView, zone: Seq<char>, pattern: Seq<char>) -> Outcome {
    match strftime_text(now.secs, now.nanos, zone, pattern) {
        Some(text) => Ok(
            JsonView::Object(
                seq![("formatted"@, JsonView::Str(text)), ("timezone"@, JsonView::Str(zone))],
            ),
        ),
        None => failure(ToolErrorKind::InvalidFormat, "Invalid format: "@ + pattern),
    }
}

/// The outcome of `get_current_time` at the instant `now`.
pub open spec fn current_time_report(args: JsonView, now: InstantView) -> Outcome {
    let zone = text_or(args.str_member("timezone"@), "UTC"@);
    let format = text_or(args.str_member("format"@), "iso"@);
    if !iana_zone(zone) {
        failure(ToolErrorKind::InvalidTimezone, "Invalid timezone: "@ + zone)
    } else if format == "iso"@ {
        match strftime_text(now.secs, now.nanos, zone, HUMAN_PATTERN@) {
            Some(text) => Ok(
                JsonView::Object(
                    seq![
                        ("formatted"@, JsonView::Str(text)),
                        ("timestamp"@, JsonView::Str(rfc3339_text(now.secs, now.nanos, zone))),
                        ("timezone"@, JsonView::Str(zone)),
                        ("unix"@, JsonView::Int(now.secs)),
                    ],
                ),
            ),
            None => failure(ToolErrorKind::InvalidFormat, "Invalid format: "@ + HUMAN_PATTERN@),
        }
    } else if format == "unix"@ {
        Ok(
            JsonView::Object(
                seq![("timestamp"@, JsonView::Int(now.secs)), ("timezone"@, JsonView::Str(zone))],
            ),
        )
    } else if format == "human"@ {
        formatted_report(now, zone, HUMAN_PATTERN@)
    } else if format == "custom"@ {
        match args.str_member("custom_format"@) {
            Some(pattern) => formatted_report(now, zone, pattern),
            None => failure(
                ToolErrorKind::MissingParameter,
                "custom_format required when format is 'custom'"@,
            ),
        }
    } else {
        failure(ToolErrorKind::InvalidFormat, "Invalid format: "@ + format)
    }
}

/// An instant as RFC 3339 text in a zone, beside the zone's name.
pub open spec fn zoned_stamp(instant: InstantView, zone: Seq<char>) -> JsonView {
    JsonView::Object(
        seq![
            ("timestamp"@, JsonView::Str(rfc3339_text(instant.secs, instant.nanos, zone))),
            ("timezone"@, JsonView::Str(zone)),
        ],
    )
}

/// The outcome of `convert_timezone`.
pub open spec fn convert_timezone_report(args: JsonView) -> Outcome {
    match (
        args.str_member("timestamp"@),
        args.str_member("from_timezone"@),
        args.str_member("to_timezone"@),
    ) {
        (None, _, _) => failure(ToolErrorKind::MissingParameter, "timestamp required"@),
        (Some(_), None, _) => failure(ToolErrorKind::MissingParameter, "from_timezone required"@),
        (Some(_), Some(_), None) => failure(
            ToolErrorKind::MissingParameter,
            "to_timezone required"@,
        ),
        (Some(timestamp), Some(from), Some(to)) => if !iana_zone(from) {
            failure(ToolErrorKind::InvalidTimezone, "Invalid from_timezone: "@ + from)
        } else if !iana_zone(to) {
            failure(ToolErrorKind::InvalidTimezone, "Invalid to_timezone: "@ + to)
        } else {
            match timestamp_reading(timestamp) {
                Ok(instant) => Ok(
                    JsonView::Object(
                        seq![
                            ("converted"@, zoned_stamp(instant, to)),
                            ("original"@, zoned_stamp(instant, from)),
                        ],
                    ),
                ),
                Err(error) => Err(error),
            }
        },
    }
}

/// A whole number of units in words: the number, a space, the unit's name.
pub open spec fn in_words(count: int, unit: Seq<char>) -> Seq<char> {
    decimal_text(count) + " "@ + unit
}

/// The report on a duration of `total` seconds in the given units. Minutes,
/// hours and days are whole numbers, rounded toward zero; a negative duration
/// stays negative.
pub open spec fn duration_report(total: int, units: Seq<char>) -> Outcome {
    let minutes = truncated_quotient(total, 60);
    let hours = truncated_quotient(total, 3600);
    let days = truncated_quotient(total, 86_400);
    if units == "seconds"@ {
        Ok(
            duration_document(
                seq![
                    ("hours"@, JsonView::Int(hours)),
                    ("human_readable"@, JsonView::Str(in_words(total, units))),
                    ("minutes"@, JsonView::Int(minutes)),
                    ("total_seconds"@, JsonView::Int(total)),
                ],
            ),
        )
    } else if units == "minutes"@ {
        Ok(
            duration_document(
                seq![
                    ("hours"@, JsonView::Int(truncated_quotient(minutes, 60))),
                    ("human_readable"@, JsonView::Str(in_words(minutes, units))),
                    ("minutes"@, JsonView::Int(minutes)),
                    ("total_seconds"@, JsonView::Int(total)),
                ],
            ),
        )
    } else if units == "hours"@ {
        Ok(
            duration_document(
                seq![
                    ("hours"@, JsonView::Int(hours)),
                    ("human_readable"@, JsonView::Str(in_words(hours, units))),
                    ("minutes"@, JsonView::Int(minutes)),
                    ("total_seconds"@, JsonView::Int(total)),
                ],
            ),
        )
    } else if units == "days"@ {
        Ok(
            duration_document(
                seq![
                    ("days"@, JsonView::Int(days)),
                    ("hours"@, JsonView::Int(hours)),
                    ("human_readable"@, JsonView::Str(in_words(days, units))),
                    ("total_seconds"@, JsonView::Int(total)),
                ],
            ),
        )
    } else {
        failure(ToolErrorKind::InvalidUnits, "Invalid units: "@ + units)
    }
}

/// The fields of a duration under the one member `duration`.
pub open spec fn duration_document(fields: Seq<(Seq<char>, JsonView)>) -> JsonView {
    JsonView::Object(seq![("duration"@, JsonView::Object(fields))])
}

/// The outcome of `calculate_duration`. Both timestamps are read before the
/// units are looked at.
pub open spec fn calculate_duration_report(args: JsonView) -> Outcome {
    match (args.str_member("start_time"@), args.str_member("end_time"@)) {
        (None, _) => failure(ToolErrorKind::MissingParameter, "start_time required"@),
        (Some(_), None) => failure(ToolErrorKind::MissingParameter, "end_time required"@),
        (Some(start), Some(end)) => match timestamp_reading(start) {
            Err(error) => Err(error),
            Ok(from) => match timestamp_reading(end) {
                Err(error) => Err(error),
                Ok(to) => duration_report(
                    elapsed_seconds(from.secs, from.nanos, to.secs, to.nanos),
                    text_or(args.str_member("units"@), "seconds"@),
                ),
            },
        },
    }
}

/// Whether `units` names a unit of duration.
pub open spec fn known_units(units: Seq<char>) -> bool {
    units == "seconds"@ || units == "minutes"@ || units == "hours"@ || units == "days"@
}

/// Whether the bag names one timestamp, a valid one, as both start and end,
/// and a known unit or none.
pub open spec fn same_valid_timestamps(args: JsonView) -> bool {
    &&& args.str_member("start_time"@) matches Some(start)
    &&& args.str_member("end_time"@) == Some(start)
    &&& timestamp_reading(start) is Ok
    &&& known_units(text_or(args.str_member("units"@), "seconds"@))
}

/// A duration's document reports under `total_seconds` what stands there.
proof fn lemma_reported_seconds(units: Seq<char>, total: int)
    requires
        known_units(units),
    ensures
        reported_seconds(duration_report(total, units)) == Some(total),
{
    reveal_strlit("duration");
    reveal_strlit("hours");
    reveal_strlit("days");
    reveal_strlit("human_readable");
    reveal_strlit("minutes");
    reveal_strlit("total_seconds");
    reveal_strlit("seconds");
    let key = "total_seconds"@;
    assert("hours"@.len() != key.len());
    assert("days"@.len() != key.len());
    assert("human_readable"@.len() != key.len());
    assert("minutes"@.len() != key.len());
    let document = duration_report(total, units)->Ok_0;
    let fields = document->Object_0[0].1->Object_0;
    assert(fields.len() == 4);
    assert(fields[3] == (key, JsonView::Int(total)));
    let rest1 = fields.drop_first();
    let rest2 = rest1.drop_first();
    let rest3 = rest2.drop_first();
    assert(rest1[0] == fields[1]);
    assert(rest2[0] == fields[2]);
    assert(rest3[0] == fields[3]);
    assert(find_member(rest3, key) == Some(JsonView::Int(total)));
    assert(find_member(rest2, key) == find_member(rest3, key));
    assert(find_member(rest1, key) == find_member(rest2, key));
    assert(find_member(fields, key) == find_member(rest1, key));
}

/// The member `total_seconds` of the member `duration` of an outcome's
/// document.
pub open spec fn reported_seconds(outcome: Outcome) -> Option<int> {
    match outcome {
        Ok(document) => match document.member("duration"@) {
            Some(duration) => match duration.member("total_seconds"@) {
                Some(JsonView::Int(seconds)) => Some(seconds),
                _ => None,
            },
            None => None,
        },
        Err(_) => None,
    }
}

/// The outcome of `format_time`. The timestamp is read before the zone is
/// looked up. The format `unix` gives the seconds since the epoch, whatever
/// the zone.
pub open spec fn format_time_report(args: JsonView) -> Outcome {
    let zone = text_or(args.str_member("timezone"@), "UTC"@);
    match (args.str_member("timestamp"@), args.str_member("format"@)) {
        (None, _) => failure(ToolErrorKind::MissingParameter, "timestamp required"@),
        (Some(_), None) => failure(ToolErrorKind::MissingParameter, "format required"@),
        (Some(timestamp), Some(format)) => match timestamp_reading(timestamp) {
            Err(error) => Err(error),
            Ok(instant) => if !iana_zone(zone) {
                failure(ToolErrorKind::InvalidTimezone, "Invalid timezone: "@ + zone)
            } else if format == "iso8601"@ || format == "rfc3339"@ {
                Ok(
                    JsonView::Object(
                        seq![
                            (
                                "formatted"@,
                                JsonView::Str(rfc3339_text(instant.secs, instant.nanos, zone)),
                            ),
                            ("timezone"@, JsonView::Str(zone)),
                        ],
                    ),
                )
            } else if format == "unix"@ {
                Ok(
                    JsonView::Object(
                        seq![
                            ("formatted"@, JsonView::Str(decimal_text(instant.secs))),
                            ("timezone"@, JsonView::Str(zone)),
                        ],
                    ),
                )
            } else if format == "custom"@ {
                match args.str_member("custom_format"@) {
                    Some(pattern) => formatted_report(instant, zone, pattern),
                    None => failure(
                        ToolErrorKind::MissingParameter,
                        "custom_format required when format is 'custom'"@,
                    ),
                }
            } else {
                failure(ToolErrorKind::InvalidFormat, "Invalid format: "@ + format)
            },
        },
    }
}

/// An offset from UTC as a sign, the hours, a colon and the minutes, each
/// with at least two digits. The sign is that of the whole hours, so an
/// offset of less than an hour is written with `+`.
pub open spec fn offset_text(seconds: int) -> Seq<char> {
    let hours = truncated_quotient(seconds, 3600);
    let magnitude = if seconds < 0 {
        -seconds
    } else {
        seconds
    };
    let sign = if hours < 0 {
        "-"@
    } else {
        "+"@
    };
    sign + padded_text((magnitude / 3600) as nat) + ":"@ + padded_text(
        ((magnitude % 3600) / 60) as nat,
    )
}

/// The outcome of `get_timezone_info` at the instant `now`. Daylight saving
/// time is reported where the offset that the zoned instant carries differs
/// from the one computed afresh for the same reading.
pub open spec fn timezone_info_report(args: JsonView, now: InstantView) -> Outcome {
    match args.str_member("timezone"@) {
        None => failure(ToolErrorKind::MissingParameter, "timezone required"@),
        Some(zone) => if !iana_zone(zone) {
            failure(ToolErrorKind::InvalidTimezone, "Invalid timezone: "@ + zone)
        } else {
            let offset = carried_offset(now.secs, now.nanos, zone);
            match strftime_text(now.secs, now.nanos, zone, ABBREVIATION_PATTERN@) {
                Some(abbreviation) => Ok(
                    JsonView::Object(
                        seq![
                            ("abbreviation"@, JsonView::Str(abbreviation)),
                            (
                                "dst_active"@,
                                JsonView::Bool(
                                    offset != computed_offset(now.secs, now.nanos, zone),
                                ),
                            ),
                            ("offset"@, JsonView::Str(offset_text(offset))),
                            ("timezone"@, JsonView::Str(zone)),
                        ],
                    ),
                ),
                None => failure(
                    ToolErrorKind::InvalidFormat,
                    "Invalid format: "@ + ABBREVIATION_PATTERN@,
                ),
            }
        },
    }
}

/// The names among `names` that begin with `region`, in their order; all of
/// them where no region is given.
pub open spec fn names_in_region(names: Seq<Seq<char>>, region: Option<Seq<char>>) -> Seq<
    Seq<char>,
> {
    match region {
        Some(prefix) => names.filter(|name: Seq<char>| has_prefix(name, prefix)),
        None => names,
    }
}

/// A list of zone names with its length.
pub open spec fn zone_listing(names: Seq<Seq<char>>) -> JsonView {
    JsonView::Object(
        seq![
            ("count"@, JsonView::Int(names.len() as int)),
            ("timezones"@, JsonView::Array(strings_view(names))),
        ],
    )
}

/// The outcome of `list_timezones`: it never fails.
pub open spec fn list_timezones_report(args: JsonView) -> Outcome {
    Ok(zone_listing(names_in_region(registry_names(), args.str_member("region"@))))
}

/// Whether `text` is a sign, two digits, a colon and two digits.
pub open spec fn is_offset_pattern(text: Seq<char>) -> bool {
    &&& text.len() == 6
    &&& (text[0] == '+' || text[0] == '-')
    &&& is_digit(text[1])
    &&& is_digit(text[2])
    &&& text[3] == ':'
    &&& is_digit(text[4])
    &&& is_digit(text[5])
}

/// An offset of less than a day is written as a sign, two digits, a colon and
/// two digits.
pub proof fn lemma_offset_text_pattern(seconds: int)
    requires
        -86_400 < seconds < 86_400,
    ensures
        is_offset_pattern(offset_text(seconds)),
{
    reveal_strlit("-");
    reveal_strlit("+");
    reveal_strlit(":");
    let magnitude = if seconds < 0 {
        -seconds
    } else {
        seconds
    };
    let hours = padded_text((magnitude / 3600) as nat);
    let minutes = padded_text(((magnitude % 3600) / 60) as nat);
    lemma_padded_is_two_digits((magnitude / 3600) as nat);
    lemma_padded_is_two_digits(((magnitude % 3600) / 60) as nat);
    let sign = if truncated_quotient(seconds, 3600) < 0 {
        "-"@
    } else {
        "+"@
    };
    let text = sign + hours + ":"@ + minutes;
    assert(text == offset_text(seconds));
    assert(text.len() == 6);
    assert(text[0] == sign[0]);
    assert(text[1] == hours[0]);
    assert(text[2] == hours[1]);
    assert(text[3] == ':');
    assert(text[4] == minutes[0]);
    assert(text[5] == minutes[1]);
}

/// The names that `list_timezones` reports for a region all begin with the
/// region, letter for letter, and the count it reports is their number.
pub proof fn lemma_listing_respects_region(args: JsonView)
    ensures
        ({
            let region = args.str_member("region"@);
            let names = names_in_region(registry_names(), region);
            &&& list_timezones_report(args) == Ok::<JsonView, ToolErrorView>(zone_listing(names))
            &&& zone_listing(names).member("count"@) == Some(JsonView::Int(names.len() as int))
            &&& zone_listing(names).member("timezones"@) == Some(
                JsonView::Array(strings_view(names)),
            )
            &&& strings_view(names).len() == names.len()
            &&& region matches Some(prefix) ==> forall|i: int|
                0 <= i < names.len() ==> has_prefix(#[trigger] names[i], prefix)
        }),
{
    reveal_strlit("count");
    reveal_strlit("timezones");
    let region = args.str_member("region"@);
    let names = names_in_region(registry_names(), region);
    let members = seq![
        ("count"@, JsonView::Int(names.len() as int)),
        ("timezones"@, JsonView::Array(strings_view(names))),
    ];
    assert(members.drop_first()[0] == members[1]);
    assert("count"@ != "timezones"@) by {
        assert("count"@.len() != "timezones"@.len());
    }
    assert(find_member(members, "timezones"@) == find_member(members.drop_first(), "timezones"@));
    if let Some(prefix) = region {
        let begins = |name: Seq<char>| has_prefix(name, prefix);
        assert forall|i: int| 0 <= i < names.len() implies has_prefix(
            #[trigger] names[i],
            prefix,
        ) by {
            registry_names().lemma_filter_pred(begins, i);
        }
    }
}

/// Converting an instant from zone `a` to zone `b`, and then converting what
/// was written for `b` back from `b` to `a`, arrives at the instant that was
/// converted first, wherever the text written for `b` reads back as that
/// instant.
pub proof fn lemma_convert_round_trip(
    there: JsonView,
    back: JsonView,
    a: Seq<char>,
    b: Seq<char>,
    instant: InstantView,
)
    requires
        iana_zone(a),
        iana_zone(b),
        there.str_member("timestamp"@) matches Some(t) && timestamp_reading(t) == Ok::<
            InstantView,
            ToolErrorView,
        >(instant),
        there.str_member("from_timezone"@) == Some(a),
        there.str_member("to_timezone"@) == Some(b),
        back.str_member("timestamp"@) == Some(rfc3339_text(instant.secs, instant.nanos, b)),
        back.str_member("from_timezone"@) == Some(b),
        back.str_member("to_timezone"@) == Some(a),
        timestamp_reading(rfc3339_text(instant.secs, instant.nanos, b)) == Ok::<
            InstantView,
            ToolErrorView,
        >(instant),
    ensures
        convert_timezone_report(there) == Ok::<JsonView, ToolErrorView>(
            JsonView::Object(
                seq![("converted"@, zoned_stamp(instant, b)), ("original"@, zoned_stamp(instant, a))],
            ),
        ),
        convert_timezone_report(back) == Ok::<JsonView, ToolErrorView>(
            JsonView::Object(
                seq![("converted"@, zoned_stamp(instant, a)), ("original"@, zoned_stamp(instant, b))],
            ),
        ),
        convert_timezone_report(back)->Ok_0.member("converted"@) == convert_timezone_report(
            there,
        )->Ok_0.member("original"@),
{
    reveal_strlit("converted");
    reveal_strlit("original");
    assert("converted"@.len() != "original"@.len());
    let first = convert_timezone_report(there)->Ok_0->Object_0;
    assert(first.drop_first()[0] == first[1]);
    assert(find_member(first, "original"@) == find_member(first.drop_first(), "original"@));
}

/// Whether a document holds an offset in the form `+HH:MM` or `-HH:MM` under
/// `offset` and a truth value under `dst_active`.
pub open spec fn has_offset_and_dst(document: JsonView) -> bool {
    &&& document.str_member("offset"@) matches Some(text) && is_offset_pattern(text)
    &&& document.member("dst_active"@) matches Some(JsonView::Bool(_))
}

/// A zone's report holds its offset and its daylight saving flag where the
/// offset is one of less than a day.
proof fn lemma_info_shape(abbreviation: Seq<char>, dst: bool, offset: int, zone: Seq<char>)
    requires
        -86_400 < offset < 86_400,
    ensures
        has_offset_and_dst(
            JsonView::Object(
                seq![
                    ("abbreviation"@, JsonView::Str(abbreviation)),
                    ("dst_active"@, JsonView::Bool(dst)),
                    ("offset"@, JsonView::Str(offset_text(offset))),
                    ("timezone"@, JsonView::Str(zone)),
                ],
            ),
        ),
{
    reveal_strlit("abbreviation");
    reveal_strlit("dst_active");
    reveal_strlit("offset");
    lemma_offset_text_pattern(offset);
    let fields = seq![
        ("abbreviation"@, JsonView::Str(abbreviation)),
        ("dst_active"@, JsonView::Bool(dst)),
        ("offset"@, JsonView::Str(offset_text(offset))),
        ("timezone"@, JsonView::Str(zone)),
    ];
    assert("abbreviation"@.len() != "dst_active"@.len());
    assert("abbreviation"@.len() != "offset"@.len());
    assert("dst_active"@.len() != "offset"@.len());
    let rest1 = fields.drop_first();
    let rest2 = rest1.drop_first();
    assert(rest1[0] == fields[1]);
    assert(rest2[0] == fields[2]);
    assert(find_member(rest1, "dst_active"@) == Some(JsonView::Bool(dst)));
    assert(find_member(fields, "dst_active"@) == find_member(rest1, "dst_active"@));
    assert(find_member(rest2, "offset"@) == Some(JsonView::Str(offset_text(offset))));
    assert(find_member(rest1, "offset"@) == find_member(rest2, "offset"@));
    assert(find_member(fields, "offset"@) == find_member(rest1, "offset"@));
}

/// The time computation engine.
pub struct TimeTools;

/// A failure with a fixed explanation.
fn fail(kind: ToolErrorKind, message: &str) -> (result: Result<Json, ToolError>)
    ensures
        value_outcome(result) == failure(kind, message@),
{
    Err(ToolError::new(kind, message.to_owned()))
}

/// A failure whose explanation ends with the text at fault.
fn fail_with(kind: ToolErrorKind, message: &str, culprit: &str) -> (result: Result<
    Json,
    ToolError,
>)
    ensures
        value_outcome(result) == failure(kind, message@ + culprit@),
{
    Err(ToolError::new(kind, join(message, culprit)))
}

/// Writes `instant` after `pattern` in `zone`.
fn formatted(instant: &Instant, zone: &Zone, pattern: &str) -> (result: Result<Json, ToolError>)
    ensures
        value_outcome(result) == formatted_report(instant@, zone@, pattern@),
{
    match instant.format_in(zone, pattern) {
        Some(text) => Ok(
            Json::object2("formatted", Json::Str(text), "timezone", Json::string(zone.name())),
        ),
        None => fail_with(ToolErrorKind::InvalidFormat, "Invalid format: ", pattern),
    }
}

/// `instant` as RFC 3339 text in `zone`, beside the zone's name.
fn stamp(instant: &Instant, zone: &Zone) -> (value: Json)
    ensures
        value@ == zoned_stamp(instant@, zone@),
{
    Json::object2(
        "timestamp",
        Json::Str(instant.to_rfc3339_in(zone)),
        "timezone",
        Json::string(zone.name()),
    )
}

/// The number, a space and the unit's name.
fn words(count: i64, unit: &str) -> (text: String)
    ensures
        text@ == in_words(count as int, unit@),
{
    let mut text = decimal_string(count);
    text.append(" ");
    text.append(unit);
    text
}

/// The fields of a duration under the one member `duration`.
fn duration_fields(
    k0: &str,
    v0: i64,
    words: String,
    k2: &str,
    v2: i64,
    total: i64,
) -> (value: Json)
    ensures
        value@ == duration_document(
            seq![
                (k0@, JsonView::Int(v0 as int)),
                ("human_readable"@, JsonView::Str(words@)),
                (k2@, JsonView::Int(v2 as int)),
                ("total_seconds"@, JsonView::Int(total as int)),
            ],
        ),
{
    Json::object1(
        "duration",
        Json::object4(
            k0,
            Json::Int(v0),
            "human_readable",
            Json::Str(words),
            k2,
            Json::Int(v2),
            "total_seconds",
            Json::Int(total),
        ),
    )
}

/// The document of an outcome as compact JSON text.
fn render(result: Result<Json, ToolError>) -> (text: Result<String, ToolError>)
    ensures
        text_outcome(text) == rendered(value_outcome(result)),
{
    match result {
        Ok(value) => Ok(value.to_text()),
        Err(error) => Err(error),
    }
}

impl TimeTools {
    /// Reads a timestamp: as seconds since the Unix epoch where the text
    /// spells an integer, as RFC 3339 otherwise.
    pub fn parse_timestamp(text: &str) -> (result: Result<Instant, ToolError>)
        ensures
            match result {
                Ok(instant) => timestamp_reading(text@) == Ok::<InstantView, ToolErrorView>(
                    instant@,
                ),
                Err(error) => timestamp_reading(text@) == Err::<InstantView, ToolErrorView>(
                    error@,
                ),
            },
    {
        match parse_i64(text) {
            Some(secs) => match Instant::from_unix(secs) {
                Some(instant) => Ok(instant),
                None => Err(
                    ToolError::new(
                        ToolErrorKind::InvalidTimestamp,
                        "Invalid Unix timestamp".to_owned(),
                    ),
                ),
            },
            None => match Instant::parse_rfc3339(text) {
                Some(instant) => Ok(instant),
                None => Err(
                    ToolError::new(
                        ToolErrorKind::InvalidTimestamp,
                        "Invalid timestamp format".to_owned(),
                    ),
                ),
            },
        }
    }

    /// The current time as seen at the instant `now`.
    pub fn get_current_time_at(arguments: &Json, now: &Instant) -> (result: Result<
        Json,
        ToolError,
    >)
        ensures
            value_outcome(result) == current_time_report(arguments@, now@),
    {
        let zone_name = match arguments.get_str("timezone") {
            Some(text) => text,
            None => "UTC",
        };
        let format = match arguments.get_str("format") {
            Some(text) => text,
            None => "iso",
        };
        let zone = match Zone::parse(zone_name) {
            Some(zone) => zone,
            None => {
                return fail_with(ToolErrorKind::InvalidTimezone, "Invalid timezone: ", zone_name);
            },
        };
        if str_eq(format, "iso") {
            match now.format_in(&zone, HUMAN_PATTERN) {
                Some(text) => Ok(
                    Json::object4(
                        "formatted",
                        Json::Str(text),
                        "timestamp",
                        Json::Str(now.to_rfc3339_in(&zone)),
                        "timezone",
                        Json::string(zone_name),
                        "unix",
                        Json::Int(now.timestamp()),
                    ),
                ),
                None => fail_with(ToolErrorKind::InvalidFormat, "Invalid format: ", HUMAN_PATTERN),
            }
        } else if str_eq(format, "unix") {
            Ok(
                Json::object2(
                    "timestamp",
                    Json::Int(now.timestamp()),
                    "timezone",
                    Json::string(zone_name),
                ),
            )
        } else if str_eq(format, "human") {
            formatted(now, &zone, HUMAN_PATTERN)
        } else if str_eq(format, "custom") {
            match arguments.get_str("custom_format") {
                Some(pattern) => formatted(now, &zone, pattern),
                None => fail(
                    ToolErrorKind::MissingParameter,
                    "custom_format required when format is 'custom'",
                ),
            }
        } else {
            fail_with(ToolErrorKind::InvalidFormat, "Invalid format: ", format)
        }
    }

    /// The current time, as JSON text. The clock is read once.
    pub fn get_current_time(arguments: Json) -> (result: Result<String, ToolError>)
        ensures
            exists|now: InstantView|
                now.representable() && text_outcome(result) == rendered(
                    #[trigger] current_time_report(arguments@, now),
                ),
    {
        let now = Instant::now();
        proof {
            use_type_invariant(&now);
        }
        render(Self::get_current_time_at(&arguments, &now))
    }

    /// An instant seen from two zones.
    pub fn convert_timezone_value(arguments: &Json) -> (result: Result<Json, ToolError>)
        ensures
            value_outcome(result) == convert_timezone_report(arguments@),
    {
        let timestamp = match arguments.get_str("timestamp") {
            Some(text) => text,
            None => {
                return fail(ToolErrorKind::MissingParameter, "timestamp required");
            },
        };
        let from_name = match arguments.get_str("from_timezone") {
            Some(text) => text,
            None => {
                return fail(ToolErrorKind::MissingParameter, "from_timezone required");
            },
        };
        let to_name = match arguments.get_str("to_timezone") {
            Some(text) => text,
            None => {
                return fail(ToolErrorKind::MissingParameter, "to_timezone required");
            },
        };
        let from = match Zone::parse(from_name) {
            Some(zone) => zone,
            None => {
                return fail_with(
                    ToolErrorKind::InvalidTimezone,
                    "Invalid from_timezone: ",
                    from_name,
                );
            },
        };
        let to = match Zone::parse(to_name) {
            Some(zone) => zone,
            None => {
                return fail_with(ToolErrorKind::InvalidTimezone, "Invalid to_timezone: ", to_name);
            },
        };
        match Self::parse_timestamp(timestamp) {
            Ok(instant) => Ok(
                Json::object2("converted", stamp(&instant, &to), "original", stamp(&instant, &from)),
            ),
            Err(error) => Err(error),
        }
    }

    /// An instant seen from two zones, as JSON text.
    pub fn convert_timezone(arguments: Json) -> (result: Result<String, ToolError>)
        ensures
            text_outcome(result) == rendered(convert_timezone_report(arguments@)),
    {
        render(Self::convert_timezone_value(&arguments))
    }

    /// A duration of `total` seconds, reported in `units`.
    pub fn report_duration(total: i64, units: &str) -> (result: Result<Json, ToolError>)
        ensures
            value_outcome(result) == duration_report(total as int, units@),
    {
        let minutes = total / 60;
        let hours = total / 3600;
        if str_eq(units, "seconds") {
            Ok(duration_fields("hours", hours, words(total, units), "minutes", minutes, total))
        } else if str_eq(units, "minutes") {
            Ok(
                duration_fields(
                    "hours",
                    minutes / 60,
                    words(minutes, units),
                    "minutes",
                    minutes,
                    total,
                ),
            )
        } else if str_eq(units, "hours") {
            Ok(duration_fields("hours", hours, words(hours, units), "minutes", minutes, total))
        } else if str_eq(units, "days") {
            let days = total / 86_400;
            Ok(
                Json::object1(
                    "duration",
                    Json::object4(
                        "days",
                        Json::Int(days),
                        "hours",
                        Json::Int(hours),
                        "human_readable",
                        Json::Str(words(days, units)),
                        "total_seconds",
                        Json::Int(total),
                    ),
                ),
            )
        } else {
            fail_with(ToolErrorKind::InvalidUnits, "Invalid units: ", units)
        }
    }

    /// The time from one timestamp to another.
    pub fn calculate_duration_value(arguments: &Json) -> (result: Result<Json, ToolError>)
        ensures
            value_outcome(result) == calculate_duration_report(arguments@),
            same_valid_timestamps(arguments@) ==> reported_seconds(value_outcome(result)) == Some(
                0int,
            ),
    {
        proof {
            if same_valid_timestamps(arguments@) {
                lemma_reported_seconds(text_or(arguments@.str_member("units"@), "seconds"@), 0);
            }
        }
        let start = match arguments.get_str("start_time") {
            Some(text) => text,
            None => {
                return fail(ToolErrorKind::MissingParameter, "start_time required");
            },
        };
        let end = match arguments.get_str("end_time") {
            Some(text) => text,
            None => {
                return fail(ToolErrorKind::MissingParameter, "end_time required");
            },
        };
        let units = match arguments.get_str("units") {
            Some(text) => text,
            None => "seconds",
        };
        let from = match Self::parse_timestamp(start) {
            Ok(instant) => instant,
            Err(error) => {
                return Err(error);
            },
        };
        let to = match Self::parse_timestamp(end) {
            Ok(instant) => instant,
            Err(error) => {
                return Err(error);
            },
        };
        Self::report_duration(from.seconds_until(&to), units)
    }

    /// The time from one timestamp to another, as JSON text.
    pub fn calculate_duration(arguments: Json) -> (result: Result<String, ToolError>)
        ensures
            text_outcome(result) == rendered(calculate_duration_report(arguments@)),
    {
        render(Self::calculate_duration_value(&arguments))
    }

    /// A timestamp written in one of the known formats.
    pub fn format_time_value(arguments: &Json) -> (result: Result<Json, ToolError>)
        ensures
            value_outcome(result) == format_time_report(arguments@),
    {
        let timestamp = match arguments.get_str("timestamp") {
            Some(text) => text,
            None => {
                return fail(ToolErrorKind::MissingParameter, "timestamp required");
            },
        };
        let format = match arguments.get_str("format") {
            Some(text) => text,
            None => {
                return fail(ToolErrorKind::MissingParameter, "format required");
            },
        };
        let zone_name = match arguments.get_str("timezone") {
            Some(text) => text,
            None => "UTC",
        };
        let instant = match Self::parse_timestamp(timestamp) {
            Ok(instant) => instant,
            Err(error) => {
                return Err(error);
            },
        };
        let zone = match Zone::parse(zone_name) {
            Some(zone) => zone,
            None => {
                return fail_with(ToolErrorKind::InvalidTimezone, "Invalid timezone: ", zone_name);
            },
        };
        if str_eq(format, "iso8601") || str_eq(format, "rfc3339") {
            Ok(
                Json::object2(
                    "formatted",
                    Json::Str(instant.to_rfc3339_in(&zone)),
                    "timezone",
                    Json::string(zone_name),
                ),
            )
        } else if str_eq(format, "unix") {
            Ok(
                Json::object2(
                    "formatted",
                    Json::Str(decimal_string(instant.timestamp())),
                    "timezone",
                    Json::string(zone_name),
                ),
            )
        } else if str_eq(format, "custom") {
            match arguments.get_str("custom_format") {
                Some(pattern) => formatted(&instant, &zone, pattern),
                None => fail(
                    ToolErrorKind::MissingParameter,
                    "custom_format required when format is 'custom'",
                ),
            }
        } else {
            fail_with(ToolErrorKind::InvalidFormat, "Invalid format: ", format)
        }
    }

    /// A timestamp written in one of the known formats, as JSON text.
    pub fn format_time(arguments: Json) -> (result: Result<String, ToolError>)
        ensures
            text_outcome(result) == rendered(format_time_report(arguments@)),
    {
        render(Self::format_time_value(&arguments))
    }

    /// An offset from UTC as a sign, hours and minutes: `+HH:MM` or `-HH:MM`
    /// for an offset of less than a day.
    pub fn offset_string(seconds: i32) -> (text: String)
        ensures
            text@ == offset_text(seconds as int),
            -86_400 < seconds < 86_400 ==> is_offset_pattern(text@),
    {
        proof {
            if -86_400 < seconds < 86_400 {
                lemma_offset_text_pattern(seconds as int);
            }
        }
        let hours = seconds / 3600;
        let magnitude: u64 = if seconds < 0 {
            (-(seconds as i64)) as u64
        } else {
            seconds as u64
        };
        let mut text = if hours < 0 {
            "-".to_owned()
        } else {
            "+".to_owned()
        };
        push_padded(&mut text, magnitude / 3600);
        text.append(":");
        push_padded(&mut text, (magnitude % 3600) / 60);
        text
    }

    /// What the registry knows of a zone at the instant `now`.
    pub fn get_timezone_info_at(arguments: &Json, now: &Instant) -> (result: Result<
        Json,
        ToolError,
    >)
        ensures
            value_outcome(result) == timezone_info_report(arguments@, now@),
            result matches Ok(document) ==> has_offset_and_dst(document@),
    {
        let zone_name = match arguments.get_str("timezone") {
            Some(text) => text,
            None => {
                return fail(ToolErrorKind::MissingParameter, "timezone required");
            },
        };
        let zone = match Zone::parse(zone_name) {
            Some(zone) => zone,
            None => {
                return fail_with(ToolErrorKind::InvalidTimezone, "Invalid timezone: ", zone_name);
            },
        };
        let offset = zone.carried_offset_at(now);
        let dst_active = offset != zone.computed_offset_at(now);
        match now.format_in(&zone, ABBREVIATION_PATTERN) {
            Some(abbreviation) => {
                proof {
                    lemma_info_shape(abbreviation@, dst_active, offset as int, zone_name@);
                }
                Ok(
                Json::object4(
                    "abbreviation",
                    Json::Str(abbreviation),
                    "dst_active",
                    Json::Bool(dst_active),
                    "offset",
                    Json::Str(Self::offset_string(offset)),
                    "timezone",
                    Json::string(zone_name),
                ),
            )
            },
            None => fail_with(
                ToolErrorKind::InvalidFormat,
                "Invalid format: ",
                ABBREVIATION_PATTERN,
            ),
        }
    }

    /// What the registry knows of a zone now, as JSON text. The clock is read
    /// once.
    pub fn get_timezone_info(arguments: Json) -> (result: Result<String, ToolError>)
        ensures
            exists|now: InstantView|
                now.representable() && text_outcome(result) == rendered(
                    #[trigger] timezone_info_report(arguments@, now),
                ),
    {
        let now = Instant::now();
        proof {
            use_type_invariant(&now);
        }
        render(Self::get_timezone_info_at(&arguments, &now))
    }

    /// The names of the registry that begin with `region`, or all of them.
    pub fn zones_in_region(region: Option<&str>) -> (names: Vec<String>)
        ensures
            texts_view(names) == names_in_region(
                registry_names(),
                match region {
                    Some(prefix) => Some(prefix@),
                    None => None,
                },
            ),
    {
        let ghost wanted: Option<Seq<char>> = match region {
            Some(prefix) => Some(prefix@),
            None => None,
        };
        let ghost all = registry_names();
        let mut names: Vec<String> = Vec::new();
        let mut i: usize = 0;
        proof {
            reveal(Seq::filter);
            assert(all.take(0) =~= Seq::empty());
            assert(texts_view(names) =~= names_in_region(all.take(0), wanted));
        }
        while i < REGISTRY_LEN
            invariant
                i <= REGISTRY_LEN,
                all == registry_names(),
                all.len() == REGISTRY_LEN,
                wanted == match region {
                    Some(prefix) => Some(prefix@),
                    None => None,
                },
                texts_view(names) == names_in_region(all.take(i as int), wanted),
            decreases REGISTRY_LEN - i,
        {
            let name = registry_entry(i);
            let keep = match region {
                Some(prefix) => starts_with(name.as_str(), prefix),
                None => true,
            };
            let ghost before = texts_view(names);
            proof {
                assert(all.take(i + 1) =~= all.take(i as int).push(all[i as int]));
                if let Some(prefix) = wanted {
                    all.take(i as int).lemma_filter_push(
                        all[i as int],
                        |name: Seq<char>| has_prefix(name, prefix),
                    );
                }
            }
            if keep {
                names.push(name);
                assert(texts_view(names) =~= before.push(all[i as int]));
            }
            i += 1;
        }
        assert(all.take(REGISTRY_LEN as int) =~= all);
        names
    }

    /// The zone names of the registry, all or by region.
    pub fn list_timezones_value(arguments: &Json) -> (result: Result<Json, ToolError>)
        ensures
            value_outcome(result) == list_timezones_report(arguments@),
    {
        let names = Self::zones_in_region(arguments.get_str("region"));
        let count = names.len();
        proof {
            let region = arguments@.str_member("region"@);
            if let Some(prefix) = region {
                registry_names().lemma_filter_len(|name: Seq<char>| has_prefix(name, prefix));
            }
        }
        Ok(Json::object2("count", Json::Int(count as i64), "timezones", Json::strings(&names)))
    }

    /// The zone names of the registry, all or by region, as JSON text.
    pub fn list_timezones(arguments: Json) -> (result: Result<String, ToolError>)
        ensures
            text_outcome(result) == rendered(list_timezones_report(arguments@)),
    {
        render(Self::list_timezones_value(&arguments))
    }
}

} // verus!

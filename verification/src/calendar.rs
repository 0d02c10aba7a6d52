//! Instants and time zones.
//!
//! Calendar arithmetic is delegated to `chrono`, zone rules to `chrono-tz`.
//! Every call into them is a small function at the end of this file whose
//! contract is taken on trust; what such a call returns is named by one of the
//! uninterpreted functions below, so that the rest of the crate can state
//! exactly which value it hands on.
use chrono::{DateTime, Offset, TimeZone, Utc};
use chrono_tz::{Tz, TZ_VARIANTS};
use vstd::prelude::*;

verus! {

/// Whether `chrono_tz::Tz::from_str` accepts `name`.
pub uninterp spec fn iana_zone(name: Seq<char>) -> bool;

/// Whether `chrono::DateTime::from_timestamp(secs, nanos)` is `Some`.
pub uninterp spec fn chrono_instant(secs: int, nanos: int) -> bool;

/// The instant that `chrono::DateTime::parse_from_rfc3339` reads from `text`,
/// as seconds and nanoseconds since the Unix epoch.
pub uninterp spec fn rfc3339_instant(text: Seq<char>) -> Option<(int, int)>;

/// What `DateTime::to_rfc3339` writes for an instant seen from a zone.
pub uninterp spec fn rfc3339_text(secs: int, nanos: int, zone: Seq<char>) -> Seq<char>;

/// What `DateTime::format` writes for an instant seen from a zone, or `None`
/// where the pattern cannot be written.
pub uninterp spec fn strftime_text(secs: int, nanos: int, zone: Seq<char>, pattern: Seq<char>) -> Option<Seq<char>>;

/// The offset from UTC, in seconds, that a zoned `DateTime` carries.
pub uninterp spec fn carried_offset(secs: int, nanos: int, zone: Seq<char>) -> int;

/// The offset from UTC, in seconds, that `TimeZone::offset_from_utc_datetime`
/// computes for the zone at an instant.
pub uninterp spec fn computed_offset(secs: int, nanos: int, zone: Seq<char>) -> int;

/// The whole seconds of `DateTime::signed_duration_since`, from the first
/// instant to the second.
pub uninterp spec fn elapsed_seconds(from_secs: int, from_nanos: int, to_secs: int, to_nanos: int) -> int;

/// The name of the zone at a position of `chrono_tz::TZ_VARIANTS`.
pub uninterp spec fn registry_name(position: int) -> Seq<char>;

/// The number of zones in `chrono_tz::TZ_VARIANTS`.
pub const REGISTRY_LEN: usize = 597;

/// The name of Coordinated Universal Time in the registry.
pub const UTC: &'static str = "UTC";

/// Nanoseconds in a second. A `nanos` part at or above it marks a leap second.
pub const NANOS_PER_SECOND: u32 = 1_000_000_000;

/// An instant as a pair of integers.
pub struct InstantView {
    pub secs: int,
    pub nanos: int,
}

/// A point in time: seconds and nanoseconds since the Unix epoch, within the
/// range that `chrono` can represent.
#[derive(Clone, Copy, Debug)]
pub struct Instant {
    secs: i64,
    nanos: u32,
}

impl View for Instant {
    type V = InstantView;

    closed spec fn view(&self) -> InstantView {
        InstantView { secs: self.secs as int, nanos: self.nanos as int }
    }
}

impl InstantView {
    /// Whether `chrono` can represent the instant.
    pub open spec fn representable(self) -> bool {
        chrono_instant(self.secs, self.nanos)
    }

    /// Whether the instant is not later than `other`.
    pub open spec fn not_after(self, other: InstantView) -> bool {
        self.secs < other.secs || (self.secs == other.secs && self.nanos <= other.nanos)
    }
}

/// Truncated division: the quotient rounded toward zero.
pub open spec fn truncated_quotient(a: int, b: int) -> int
    recommends
        b > 0,
{
    if a >= 0 {
        a / b
    } else {
        -((-a) / b)
    }
}

/// The whole seconds from one instant to another where neither is a leap
/// second: the exact difference, rounded toward zero.
pub open spec fn plain_elapsed_seconds(from: InstantView, to: InstantView) -> int {
    truncated_quotient(
        (to.secs - from.secs) * 1_000_000_000 + (to.nanos - from.nanos),
        1_000_000_000,
    )
}

impl Instant {
    /// Only instants that `chrono` can represent are held.
    #[verifier::type_invariant]
    pub open spec fn valid(self) -> bool {
        self@.representable()
    }

    /// Reads the system clock. What it reads is not known beforehand, only
    /// that `chrono` can represent it.
    pub fn now() -> (now: Instant)
        ensures
            now@.representable(),
    {
        let (secs, nanos) = clock_reading();
        Instant { secs, nanos }
    }

    /// The instant `secs` whole seconds after the Unix epoch, if `chrono` can
    /// represent it.
    pub fn from_unix(secs: i64) -> (instant: Option<Instant>)
        ensures
            instant is Some <==> chrono_instant(secs as int, 0),
            instant matches Some(i) ==> i@ == (InstantView { secs: secs as int, nanos: 0 }),
    {
        if instant_representable(secs, 0) {
            Some(Instant { secs, nanos: 0 })
        } else {
            None
        }
    }

    /// Reads an RFC 3339 date and time.
    pub fn parse_rfc3339(text: &str) -> (instant: Option<Instant>)
        ensures
            match instant {
                Some(i) => rfc3339_instant(text@) == Some((i@.secs, i@.nanos)),
                None => rfc3339_instant(text@) is None,
            },
    {
        match rfc3339_reading(text) {
            Some((secs, nanos)) => Some(Instant { secs, nanos }),
            None => None,
        }
    }

    /// Seconds since the Unix epoch, rounded down.
    pub fn timestamp(&self) -> (secs: i64)
        ensures
            secs == self@.secs,
    {
        self.secs
    }

    /// Nanoseconds since the last whole second.
    pub fn subsec_nanos(&self) -> (nanos: u32)
        ensures
            nanos == self@.nanos,
    {
        self.nanos
    }

    /// Whether this instant is not later than `other`.
    pub fn not_after(&self, other: &Instant) -> (yes: bool)
        ensures
            yes == self@.not_after(other@),
    {
        self.secs < other.secs || (self.secs == other.secs && self.nanos <= other.nanos)
    }

    /// The instant `seconds` later (earlier, if negative), if `chrono` can
    /// represent it.
    pub fn shifted(&self, seconds: i64) -> (instant: Option<Instant>)
        ensures
            instant is Some <==> i64::MIN <= self@.secs + seconds <= i64::MAX && chrono_instant(
                self@.secs + seconds,
                self@.nanos,
            ),
            instant matches Some(i) ==> i@ == (InstantView {
                secs: self@.secs + seconds,
                nanos: self@.nanos,
            }),
    {
        match self.secs.checked_add(seconds) {
            Some(secs) => {
                if instant_representable(secs, self.nanos) {
                    Some(Instant { secs, nanos: self.nanos })
                } else {
                    None
                }
            },
            None => None,
        }
    }

    /// The whole seconds from `self` to `later`, rounded toward zero; negative
    /// where `later` is the earlier one.
    pub fn seconds_until(&self, later: &Instant) -> (seconds: i64)
        ensures
            seconds == elapsed_seconds(self@.secs, self@.nanos, later@.secs, later@.nanos),
            self@ == later@ ==> seconds == 0,
            self@.nanos < NANOS_PER_SECOND && later@.nanos < NANOS_PER_SECOND ==> seconds
                == plain_elapsed_seconds(self@, later@),
    {
        proof {
            use_type_invariant(self);
            use_type_invariant(later);
        }
        elapsed_reading(self.secs, self.nanos, later.secs, later.nanos)
    }

    /// The instant as RFC 3339 text in the local time of `zone`.
    pub fn to_rfc3339_in(&self, zone: &Zone) -> (text: String)
        ensures
            text@ == rfc3339_text(self@.secs, self@.nanos, zone@),
    {
        proof {
            use_type_invariant(self);
            use_type_invariant(zone);
        }
        rfc3339_writing(self.secs, self.nanos, zone.name.as_str())
    }

    /// The instant in the local time of `zone`, written after a strftime
    /// pattern; `None` where `chrono` cannot write the pattern.
    pub fn format_in(&self, zone: &Zone, pattern: &str) -> (text: Option<String>)
        ensures
            match text {
                Some(t) => strftime_text(self@.secs, self@.nanos, zone@, pattern@) == Some(t@),
                None => strftime_text(self@.secs, self@.nanos, zone@, pattern@) is None,
            },
    {
        proof {
            use_type_invariant(self);
            use_type_invariant(zone);
        }
        strftime_writing(self.secs, self.nanos, zone.name.as_str(), pattern)
    }
}

/// A time zone of the IANA registry, held by its name.
pub struct Zone {
    name: String,
}

impl View for Zone {
    type V = Seq<char>;

    closed spec fn view(&self) -> Seq<char> {
        self.name@
    }
}

impl Zone {
    /// Only names that the registry knows are held.
    #[verifier::type_invariant]
    pub open spec fn valid(self) -> bool {
        iana_zone(self@)
    }

    /// Looks `name` up in the registry. Names are matched letter for letter.
    /// The registry holds `UTC`.
    pub fn parse(name: &str) -> (zone: Option<Zone>)
        ensures
            zone is Some <==> iana_zone(name@),
            zone matches Some(z) ==> z@ == name@,
            name@ == UTC@ ==> zone is Some,
    {
        if zone_known(name) {
            Some(Zone { name: name.to_owned() })
        } else {
            None
        }
    }

    /// The zone of Coordinated Universal Time.
    pub fn utc() -> (zone: Zone)
        ensures
            zone@ == UTC@,
    {
        match Zone::parse(UTC) {
            Some(zone) => zone,
            None => vstd::pervasive::unreached(),
        }
    }

    /// The name the zone was looked up by.
    pub fn name(&self) -> (name: &str)
        ensures
            name@ == self@,
    {
        self.name.as_str()
    }

    /// The offset from UTC in seconds that the zone's local time carries at
    /// `instant`. It is less than a day either way.
    pub fn carried_offset_at(&self, instant: &Instant) -> (seconds: i32)
        ensures
            seconds == carried_offset(instant@.secs, instant@.nanos, self@),
            -86_400 < seconds < 86_400,
    {
        proof {
            use_type_invariant(self);
            use_type_invariant(instant);
        }
        carried_offset_reading(instant.secs, instant.nanos, self.name.as_str())
    }

    /// The offset from UTC in seconds that the zone's rules give for
    /// `instant`, computed afresh. It is less than a day either way.
    pub fn computed_offset_at(&self, instant: &Instant) -> (seconds: i32)
        ensures
            seconds == computed_offset(instant@.secs, instant@.nanos, self@),
            -86_400 < seconds < 86_400,
    {
        proof {
            use_type_invariant(self);
            use_type_invariant(instant);
        }
        computed_offset_reading(instant.secs, instant.nanos, self.name.as_str())
    }
}

/// The names of the registry, in its order.
pub open spec fn registry_names() -> Seq<Seq<char>> {
    Seq::new(REGISTRY_LEN as nat, |i: int| registry_name(i))
}

/// `chrono::Utc::now`: the system clock's reading. `chrono` builds it with
/// `DateTime::from_timestamp`, so it is an instant that `from_timestamp`
/// accepts. (`chrono` stops the program if the clock reads a time before
/// 1970.)
#[verifier::external_body]
fn clock_reading() -> (reading: (i64, u32))
    ensures
        chrono_instant(reading.0 as int, reading.1 as int),
{
    let now = Utc::now();
    (now.timestamp(), now.timestamp_subsec_nanos())
}

/// `chrono::DateTime::from_timestamp`: whether it accepts the pair.
#[verifier::external_body]
fn instant_representable(secs: i64, nanos: u32) -> (accepted: bool)
    ensures
        accepted == chrono_instant(secs as int, nanos as int),
{
    DateTime::from_timestamp(secs, nanos).is_some()
}

/// `chrono::DateTime::parse_from_rfc3339`, the result moved to UTC and taken
/// apart with `timestamp` and `timestamp_subsec_nanos`. `chrono` documents
/// that `from_timestamp` accepts such a pair again.
#[verifier::external_body]
fn rfc3339_reading(text: &str) -> (reading: Option<(i64, u32)>)
    ensures
        match reading {
            Some(r) => rfc3339_instant(text@) == Some((r.0 as int, r.1 as int)) && chrono_instant(
                r.0 as int,
                r.1 as int,
            ),
            None => rfc3339_instant(text@) is None,
        },
{
    match DateTime::parse_from_rfc3339(text) {
        Ok(parsed) => {
            let utc = parsed.with_timezone(&Utc);
            Some((utc.timestamp(), utc.timestamp_subsec_nanos()))
        },
        Err(_) => None,
    }
}

/// `chrono::DateTime::signed_duration_since` followed by
/// `TimeDelta::num_seconds`. From an instant to itself the duration is zero.
/// Where neither instant is a leap second, `chrono` subtracts seconds and
/// nanoseconds exactly, and `num_seconds` drops the fraction toward zero.
#[verifier::external_body]
fn elapsed_reading(from_secs: i64, from_nanos: u32, to_secs: i64, to_nanos: u32) -> (seconds: i64)
    requires
        chrono_instant(from_secs as int, from_nanos as int),
        chrono_instant(to_secs as int, to_nanos as int),
    ensures
        seconds == elapsed_seconds(
            from_secs as int,
            from_nanos as int,
            to_secs as int,
            to_nanos as int,
        ),
        from_secs == to_secs && from_nanos == to_nanos ==> seconds == 0,
        from_nanos < NANOS_PER_SECOND && to_nanos < NANOS_PER_SECOND ==> seconds
            == plain_elapsed_seconds(
            InstantView { secs: from_secs as int, nanos: from_nanos as int },
            InstantView { secs: to_secs as int, nanos: to_nanos as int },
        ),
{
    let from = DateTime::from_timestamp(from_secs, from_nanos).unwrap();
    let to = DateTime::from_timestamp(to_secs, to_nanos).unwrap();
    to.signed_duration_since(from).num_seconds()
}

/// `chrono::DateTime::to_rfc3339` on the instant moved into the zone with
/// `with_timezone`.
#[verifier::external_body]
fn rfc3339_writing(secs: i64, nanos: u32, zone: &str) -> (text: String)
    requires
        chrono_instant(secs as int, nanos as int),
        iana_zone(zone@),
    ensures
        text@ == rfc3339_text(secs as int, nanos as int, zone@),
{
    let tz: Tz = zone.parse().unwrap();
    DateTime::from_timestamp(secs, nanos).unwrap().with_timezone(&tz).to_rfc3339()
}

/// `chrono::DateTime::format` on the instant moved into the zone, written out
/// with `DelayedFormat::write_to`, which reports a pattern that it cannot
/// write as an error.
#[verifier::external_body]
fn strftime_writing(secs: i64, nanos: u32, zone: &str, pattern: &str) -> (text: Option<String>)
    requires
        chrono_instant(secs as int, nanos as int),
        iana_zone(zone@),
    ensures
        match text {
            Some(t) => strftime_text(secs as int, nanos as int, zone@, pattern@) == Some(t@),
            None => strftime_text(secs as int, nanos as int, zone@, pattern@) is None,
        },
{
    let tz: Tz = zone.parse().unwrap();
    let local = DateTime::from_timestamp(secs, nanos).unwrap().with_timezone(&tz);
    let mut text = String::new();
    match local.format(pattern).write_to(&mut text) {
        Ok(()) => Some(text),
        Err(_) => None,
    }
}

/// `chrono_tz::Tz::from_str`: whether the registry holds the name. It holds
/// the name `UTC`.
#[verifier::external_body]
fn zone_known(name: &str) -> (known: bool)
    ensures
        known == iana_zone(name@),
        name@ == UTC@ ==> known,
{
    name.parse::<Tz>().is_ok()
}

/// `chrono::DateTime::offset` of the instant moved into the zone, as
/// `FixedOffset::local_minus_utc` gives it. A `FixedOffset` is less than a day
/// either way.
#[verifier::external_body]
fn carried_offset_reading(secs: i64, nanos: u32, zone: &str) -> (seconds: i32)
    requires
        chrono_instant(secs as int, nanos as int),
        iana_zone(zone@),
    ensures
        seconds == carried_offset(secs as int, nanos as int, zone@),
        -86_400 < seconds < 86_400,
{
    let tz: Tz = zone.parse().unwrap();
    let local = DateTime::from_timestamp(secs, nanos).unwrap().with_timezone(&tz);
    local.offset().fix().local_minus_utc()
}

/// `chrono::TimeZone::offset_from_utc_datetime` of the zone at the instant, as
/// `FixedOffset::local_minus_utc` gives it. A `FixedOffset` is less than a day
/// either way.
#[verifier::external_body]
fn computed_offset_reading(secs: i64, nanos: u32, zone: &str) -> (seconds: i32)
    requires
        chrono_instant(secs as int, nanos as int),
        iana_zone(zone@),
    ensures
        seconds == computed_offset(secs as int, nanos as int, zone@),
        -86_400 < seconds < 86_400,
{
    let tz: Tz = zone.parse().unwrap();
    let utc = DateTime::from_timestamp(secs, nanos).unwrap().naive_utc();
    tz.offset_from_utc_datetime(&utc).fix().local_minus_utc()
}

/// `chrono_tz::Tz::name` of the zone at a position of
/// `chrono_tz::TZ_VARIANTS`, an array of `REGISTRY_LEN` zones.
#[verifier::external_body]
fn zone_name_at(position: usize) -> (name: String)
    requires
        position < REGISTRY_LEN,
    ensures
        name@ == registry_name(position as int),
{
    TZ_VARIANTS[position].name().to_string()
}

/// The name of the zone at `position` of the registry.
pub fn registry_entry(position: usize) -> (name: String)
    requires
        position < REGISTRY_LEN,
    ensures
        name@ == registry_names()[position as int],
{
    zone_name_at(position)
}

} // verus!

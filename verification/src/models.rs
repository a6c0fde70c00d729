use vstd::prelude::*;
use vstd::string::StringExecFns;

use crate::filters::{Factions, Tier};
use crate::mission_type::MissionType;
use crate::text::two_digits;

verus! {

/// An instant on the UTC time line together with the offset it is displayed in.
#[derive(Debug, Clone, Copy, PartialEq, Eq, Structural)]
pub struct Timestamp {
    /// Whole seconds since 1970-01-01T00:00:00Z
    pub unix_seconds: i64,
    /// Nanoseconds past `unix_seconds`, below one second
    pub nanosecond: u32,
    /// Offset from UTC, in seconds, of the local time this instant is shown in
    pub offset_seconds: i32,
}

/// The earliest instant a `Timestamp` can hold, -9999-01-01T00:00:00Z, in
/// seconds since the Unix epoch.
pub const MIN_UNIX_SECONDS: i64 = -377_705_116_800;

/// The latest instant a `Timestamp` can hold, 9999-12-31T23:59:59Z, in seconds
/// since the Unix epoch.
pub const MAX_UNIX_SECONDS: i64 = 253_402_300_799;

/// The largest offset from UTC, in either direction: 25:59:59, in seconds.
pub const MAX_OFFSET_SECONDS: i32 = 93_599;

pub const NANOS_PER_SECOND: u32 = 1_000_000_000;

/// The time of day, as `hh:mm:ss` on the 24-hour clock, of the instant that
/// lies `local_seconds` seconds after 1970-01-01T00:00:00 local time.
pub open spec fn clock_text(local_seconds: int) -> Seq<char> {
    let second_of_day = local_seconds % 86_400;
    let hour = (second_of_day / 3_600) as nat;
    let minute = ((second_of_day % 3_600) / 60) as nat;
    let second = (second_of_day % 60) as nat;
    two_digits(hour) + seq![':'] + two_digits(minute) + seq![':'] + two_digits(second)
}

/// Formats a date-time with `OffsetDateTime::format` of the `time` crate, by
/// the description `[hour]:[minute]:[second]`. The contract is taken on
/// trust: it claims that this prints the local hour, minute and second, each
/// as two digits, with colons between them.
///
/// The rest of the body turns the arguments into what `format` takes: the
/// instant into an `OffsetDateTime` (`OffsetDateTime::from_unix_timestamp`),
/// moved to the offset (`UtcOffset::from_whole_seconds`,
/// `OffsetDateTime::to_offset`), and the description into format items
/// (`format_description::parse_borrowed`). The three `requires` clauses keep
/// to the instants, offsets and local date-times that `time` accepts, so that
/// none of these fails.
#[verifier::external_body]
fn format_clock(unix_seconds: i64, offset_seconds: i32) -> (text: String)
    requires
        MIN_UNIX_SECONDS <= unix_seconds <= MAX_UNIX_SECONDS,
        -MAX_OFFSET_SECONDS <= offset_seconds <= MAX_OFFSET_SECONDS,
        MIN_UNIX_SECONDS <= unix_seconds + offset_seconds <= MAX_UNIX_SECONDS,
    ensures
        text@ == clock_text(unix_seconds + offset_seconds),
{
    let utc = time::OffsetDateTime::from_unix_timestamp(unix_seconds).unwrap();
    let offset = time::UtcOffset::from_whole_seconds(offset_seconds).unwrap();
    let description = time::format_description::parse_borrowed::<1>("[hour]:[minute]:[second]")
        .unwrap();
    utc.to_offset(offset).format(&description).unwrap()
}

impl Timestamp {
    /// Whether the value is a date-time that the calendar of this crate can
    /// show: the instant and the local date-time lie in the years -9999 to
    /// 9999, and the offset and the nanoseconds are within their bounds.
    pub open spec fn wf(&self) -> bool {
        &&& MIN_UNIX_SECONDS <= self.unix_seconds <= MAX_UNIX_SECONDS
        &&& self.nanosecond < NANOS_PER_SECOND
        &&& -MAX_OFFSET_SECONDS <= self.offset_seconds <= MAX_OFFSET_SECONDS
        &&& MIN_UNIX_SECONDS <= self.unix_seconds + self.offset_seconds <= MAX_UNIX_SECONDS
    }

    /// The instant, in nanoseconds since the Unix epoch.
    pub open spec fn instant(&self) -> int {
        self.unix_seconds * NANOS_PER_SECOND + self.nanosecond
    }

    /// Whether `wf` holds.
    pub fn is_valid(&self) -> (valid: bool)
        ensures
            valid == self.wf(),
    {
        MIN_UNIX_SECONDS <= self.unix_seconds && self.unix_seconds <= MAX_UNIX_SECONDS
            && self.nanosecond < NANOS_PER_SECOND && -MAX_OFFSET_SECONDS <= self.offset_seconds
            && self.offset_seconds <= MAX_OFFSET_SECONDS && MIN_UNIX_SECONDS - (
        self.offset_seconds as i64) <= self.unix_seconds && self.unix_seconds <= MAX_UNIX_SECONDS
            - (self.offset_seconds as i64)
    }

    /// The instant, in nanoseconds since the Unix epoch.
    pub fn unix_nanos(&self) -> (nanos: i128)
        ensures
            nanos == self.instant(),
    {
        (self.unix_seconds as i128) * 1_000_000_000 + (self.nanosecond as i128)
    }

    /// The local time of day, as `hh:mm:ss`.
    pub fn clock(&self) -> (text: String)
        requires
            self.wf(),
        ensures
            text@ == clock_text(self.unix_seconds + self.offset_seconds),
    {
        format_clock(self.unix_seconds, self.offset_seconds)
    }
}

#[derive(Debug)]
pub struct Fissure {
    /// unique identifier for this object/event/thing
    pub id: String,
    /// when the event began
    pub activation: Timestamp,
    /// when the event is expected to end
    pub expiry: Timestamp,
    /// Short-time-formatted duration string representing the start of the event
    pub start_string: String,
    /// Whether the event is currently active
    pub active: bool,
    /// Node name with planet
    pub node: String,
    /// Whether the fissure is still present
    pub expired: bool,
    /// Short-formatted string estimating the time until the event/mission is closed
    pub eta: String,
    pub mission_type: MissionType,
    pub mission_key: String,
    pub tier: Tier,
    /// Numeric tier corresponding to the tier
    pub tier_num: u8,
    pub enemy: Factions,
    pub enemy_key: Factions,
    /// Whether this fissure is a void storm
    pub is_storm: bool,
    /// Whether this fissure is on the Steel Path
    pub is_hard: bool,
}

impl Clone for Fissure {
    fn clone(&self) -> (copy: Self)
        ensures
            copy == *self,
    {
        Fissure {
            id: self.id.clone(),
            activation: self.activation,
            expiry: self.expiry,
            start_string: self.start_string.clone(),
            active: self.active,
            node: self.node.clone(),
            expired: self.expired,
            eta: self.eta.clone(),
            mission_type: self.mission_type,
            mission_key: self.mission_key.clone(),
            tier: self.tier,
            tier_num: self.tier_num,
            enemy: self.enemy,
            enemy_key: self.enemy_key,
            is_storm: self.is_storm,
            is_hard: self.is_hard,
        }
    }
}

/// The fissures that the references of a collection point to.
pub open spec fn pointees(fissures: Seq<&Fissure>) -> Seq<Fissure> {
    fissures.map_values(|fissure: &Fissure| *fissure)
}

impl Fissure {
    /// The one-line rendering of the fissure: `SP ` where it is on the Steel
    /// Path, then the tier, the mission type and the node.
    pub open spec fn display(&self) -> Seq<char> {
        (if self.is_hard {
            "SP "@
        } else {
            ""@
        }) + self.tier.name() + " "@ + self.mission_type.name() + " on "@ + self.node@
    }

    /// The cells of the fissure's table row, column by column.
    pub open spec fn row(&self) -> Seq<Seq<char>> {
        seq![
            if self.is_hard {
                "SP"@
            } else {
                ""@
            },
            self.tier.name(),
            self.mission_type.name(),
            self.node@,
            self.enemy.name(),
            clock_text(self.expiry.unix_seconds + self.expiry.offset_seconds),
        ]
    }

    /// The titles of the table's columns.
    pub open spec fn headers() -> Seq<Seq<char>> {
        seq!["SP"@, "Tier"@, "Mission Type"@, "Node (Region)"@, "Faction"@, "Expiry"@]
    }

    pub fn to_string(&self) -> (text: String)
        ensures
            text@ == self.display(),
    {
        let mut text = String::from_str(
            if self.is_hard {
                "SP "
            } else {
                ""
            },
        );
        text.append(self.tier.as_str());
        text.append(" ");
        text.append(self.mission_type.as_str());
        text.append(" on ");
        text.append(self.node.as_str());
        text
    }

    pub fn table_string(&self) -> (cells: Vec<String>)
        requires
            self.expiry.wf(),
        ensures
            cells@.map_values(|cell: String| cell@) == self.row(),
    {
        let mut cells: Vec<String> = Vec::new();
        cells.push(
            if self.is_hard {
                String::from_str("SP")
            } else {
                String::from_str("")
            },
        );
        cells.push(self.tier.to_string());
        cells.push(self.mission_type.to_string());
        cells.push(self.node.clone());
        cells.push(self.enemy.to_string());
        cells.push(self.expiry.clock());
        assert(cells@.map_values(|cell: String| cell@) =~= self.row());
        cells
    }

    pub fn table_headers() -> (cells: Vec<String>)
        ensures
            cells@.map_values(|cell: String| cell@) == Fissure::headers(),
    {
        let mut cells: Vec<String> = Vec::new();
        cells.push(String::from_str("SP"));
        cells.push(String::from_str("Tier"));
        cells.push(String::from_str("Mission Type"));
        cells.push(String::from_str("Node (Region)"));
        cells.push(String::from_str("Faction"));
        cells.push(String::from_str("Expiry"));
        assert(cells@.map_values(|cell: String| cell@) =~= Fissure::headers());
        cells
    }
}

} // verus!

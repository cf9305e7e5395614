//! Message identifiers and timestamps.
//!
//! An identifier is the 128-bit value of a UUID. A timestamp is an instant in
//! UTC: seconds since the Unix epoch and nanoseconds within the second. The
//! `uuid` crate generates and parses identifiers; the `chrono` crate reads the
//! clock and prints and parses timestamps. What is taken on trust about those
//! crates is stated on the private functions of this module.

use crate::text::single_line;
use vstd::prelude::*;
use vstd::string::*;

verus! {

/// The first second that `chrono` can hold: the start of the year -262143.
pub const MIN_SECS: i64 = -8_334_601_228_800;

/// The last second that `chrono` can hold: the end of the year 262142.
pub const MAX_SECS: i64 = 8_210_266_876_799;

/// Whether `chrono` can hold the instant: the second lies in the years that it
/// covers, and the nanoseconds stay below one second, or below two in the last
/// second of a minute, where a leap second may stand.
pub open spec fn timestamp_in_range(secs: i64, nanos: u32) -> bool {
    &&& MIN_SECS <= secs <= MAX_SECS
    &&& (nanos < 1_000_000_000 || (nanos < 2_000_000_000 && (secs as int) % 60 == 59))
}

/// The RFC 3339 text of an instant in UTC, with `Z` for the offset and as many
/// fraction digits (0, 3, 6 or 9) as the nanoseconds need: names what
/// `DateTime::to_rfc3339_opts(SecondsFormat::AutoSi, true)` returns.
pub uninterp spec fn rfc3339_text(secs: i64, nanos: u32) -> Seq<char>;

/// The instant that a text denotes, if `chrono` reads it as a date and time with
/// an offset: names what parsing a `DateTime<FixedOffset>` from the text and
/// moving it to UTC returns. The crate reads RFC 3339 and a relaxed form of it:
/// numbers need no padding, spaces may stand between the parts, `UTC` may stand
/// for the offset, the colon in the offset may be missing, and a year beyond
/// four digits is read where it has a sign.
pub uninterp spec fn rfc3339_instant(text: Seq<char>) -> Option<(i64, u32)>;

/// What a clock shows of an instant where local time is `offset` seconds ahead
/// of UTC, as month/day/year and hour:minute: names what `DateTime::format`
/// returns for `%m/%d/%Y %H:%M` on the instant in the zone
/// `FixedOffset::east_opt(offset)`.
pub uninterp spec fn clock_face(secs: i64, nanos: u32, offset: i32) -> Seq<char>;

/// Whether local time can be `offset` seconds ahead of UTC: less than a day,
/// either way.
pub open spec fn is_zone_offset(offset: i32) -> bool {
    -86_400 < offset < 86_400
}

/// The identifier that a text denotes, if it is the text of a UUID: names what
/// `Uuid::parse_str` returns.
pub uninterp spec fn uuid_value(text: Seq<char>) -> Option<u128>;

/// The lower-case character of a hexadecimal digit; meant for `d < 16`.
pub open spec fn hex_char(d: u128) -> char {
    if d == 0 {
        '0'
    } else if d == 1 {
        '1'
    } else if d == 2 {
        '2'
    } else if d == 3 {
        '3'
    } else if d == 4 {
        '4'
    } else if d == 5 {
        '5'
    } else if d == 6 {
        '6'
    } else if d == 7 {
        '7'
    } else if d == 8 {
        '8'
    } else if d == 9 {
        '9'
    } else if d == 10 {
        'a'
    } else if d == 11 {
        'b'
    } else if d == 12 {
        'c'
    } else if d == 13 {
        'd'
    } else if d == 14 {
        'e'
    } else {
        'f'
    }
}

/// The `k`-th hexadecimal digit of `id`, counted from the most significant one;
/// meant for `0 <= k < 32`.
pub open spec fn hex_digit(id: u128, k: int) -> u128 {
    (id >> (((31 - k) * 4) as u128)) & 0xf
}

/// The hyphenated lower-case text of an identifier: 32 hexadecimal digits in 5
/// groups of 8, 4, 4, 4 and 12.
pub open spec fn uuid_text(id: u128) -> Seq<char> {
    Seq::new(
        36,
        |i: int|
            if i == 8 || i == 13 || i == 18 || i == 23 {
                '-'
            } else if i < 8 {
                hex_char(hex_digit(id, i))
            } else if i < 13 {
                hex_char(hex_digit(id, i - 1))
            } else if i < 18 {
                hex_char(hex_digit(id, i - 2))
            } else if i < 23 {
                hex_char(hex_digit(id, i - 3))
            } else {
                hex_char(hex_digit(id, i - 4))
            },
    )
}

/// The text of an identifier fits on one line.
pub proof fn lemma_uuid_text_single_line(id: u128)
    ensures
        single_line(uuid_text(id)),
{
}

/// Whether `id` carries the marks of a random (version 4) UUID: version digit 4
/// and the two variant bits `10`.
pub open spec fn is_random_id(id: u128) -> bool {
    id & 0xF000_C000_0000_0000_0000u128 == 0x4000_8000_0000_0000_0000u128
}

/// The mathematical value of a [`Timestamp`].
pub struct Instant {
    pub secs: int,
    pub nanos: int,
}

/// An instant in UTC that `chrono` can hold.
#[derive(Clone, Copy, Debug, PartialEq, Eq)]
pub struct Timestamp {
    secs: i64,
    nanos: u32,
}

impl View for Timestamp {
    type V = Instant;

    closed spec fn view(&self) -> Instant {
        Instant { secs: self.secs as int, nanos: self.nanos as int }
    }
}

impl Timestamp {
    #[verifier::type_invariant]
    spec fn in_range(self) -> bool {
        timestamp_in_range(self.secs, self.nanos)
    }

    /// The timestamp of `secs` seconds since the Unix epoch and `nanos`
    /// nanoseconds, or `None` where that instant is out of range.
    pub fn new(secs: i64, nanos: u32) -> (r: Option<Timestamp>)
        ensures
            r is Some <==> timestamp_in_range(secs, nanos),
            r is Some ==> r->0@ == (Instant { secs: secs as int, nanos: nanos as int }),
    {
        if instant_in_range(secs, nanos) {
            Some(Timestamp { secs, nanos })
        } else {
            None
        }
    }

    /// The current time, as the system clock has it. Two calls may differ. A
    /// clock that is set before 1970 is read as it stands.
    pub fn now() -> (r: Timestamp)
        ensures
            timestamp_in_range(r@.secs as i64, r@.nanos as u32),
    {
        let (secs, nanos) = clock_now();
        Timestamp { secs, nanos }
    }

    /// Seconds since the Unix epoch.
    pub fn secs(&self) -> (r: i64)
        ensures
            r == self@.secs,
    {
        self.secs
    }

    /// Nanoseconds within the second; a leap second counts past 999,999,999.
    pub fn nanos(&self) -> (r: u32)
        ensures
            r == self@.nanos,
    {
        self.nanos
    }

    /// The RFC 3339 text of the instant, as [`rfc3339_text`] names it.
    pub open spec fn wire_text(self) -> Seq<char> {
        rfc3339_text(self@.secs as i64, self@.nanos as u32)
    }

    /// The text that stands for this instant on the wire. It holds no line
    /// break.
    pub fn to_wire(&self) -> (r: String)
        ensures
            r@ == self.wire_text(),
            single_line(r@),
    {
        proof {
            use_type_invariant(self);
        }
        instant_text(self.secs, self.nanos)
    }

    /// The instant that a wire text denotes, as [`rfc3339_instant`] names it:
    /// RFC 3339 and the relaxed form of it that `chrono` reads.
    pub open spec fn of_wire(text: Seq<char>) -> Option<Instant> {
        match rfc3339_instant(text) {
            Some((secs, nanos)) => Some(Instant { secs: secs as int, nanos: nanos as int }),
            None => None,
        }
    }

    /// Reads an instant from its wire text.
    pub fn from_wire(text: &str) -> (r: Option<Timestamp>)
        ensures
            r is Some <==> Timestamp::of_wire(text@) is Some,
            r is Some ==> Some(r->0@) == Timestamp::of_wire(text@),
    {
        match parse_instant(text) {
            Some((secs, nanos)) => Some(Timestamp { secs, nanos }),
            None => None,
        }
    }

    /// What a clock shows of the instant where local time is `offset` seconds
    /// ahead of UTC, as [`clock_face`] names it.
    pub open spec fn clock_text(self, offset: i32) -> Seq<char> {
        clock_face(self@.secs as i64, self@.nanos as u32, offset)
    }

    /// The instant as a clock shows it where local time is `offset` seconds
    /// ahead of UTC, as month/day/year and hour:minute; `None` where no zone
    /// has that offset.
    pub fn to_clock(&self, offset: i32) -> (r: Option<String>)
        ensures
            r is Some <==> is_zone_offset(offset),
            r matches Some(text) ==> text@ == self.clock_text(offset),
    {
        proof {
            use_type_invariant(self);
        }
        if -86_400 < offset && offset < 86_400 {
            Some(clock_at(self.secs, self.nanos, offset))
        } else {
            None
        }
    }

    /// The instant as a clock on this machine shows it, as month/day/year and
    /// hour:minute. The machine's time zone decides how far local time is
    /// ahead of UTC at this instant; the text is what a clock shows at that
    /// offset.
    pub fn to_local(&self) -> (r: String)
        ensures
            exists|offset: i32| is_zone_offset(offset) && r@ == #[trigger] self.clock_text(offset),
    {
        proof {
            use_type_invariant(self);
        }
        let offset = local_offset(self.secs, self.nanos);
        let r = clock_at(self.secs, self.nanos, offset);
        assert(is_zone_offset(offset) && r@ == self.clock_text(offset));
        r
    }
}

/// The text of one hexadecimal digit.
fn hex_text(d: u128) -> (r: &'static str)
    requires
        d < 16,
    ensures
        r@ == seq![hex_char(d)],
{
    proof {
        reveal_strlit("0");
        reveal_strlit("1");
        reveal_strlit("2");
        reveal_strlit("3");
        reveal_strlit("4");
        reveal_strlit("5");
        reveal_strlit("6");
        reveal_strlit("7");
        reveal_strlit("8");
        reveal_strlit("9");
        reveal_strlit("a");
        reveal_strlit("b");
        reveal_strlit("c");
        reveal_strlit("d");
        reveal_strlit("e");
        reveal_strlit("f");
    }
    let r = if d == 0 {
        "0"
    } else if d == 1 {
        "1"
    } else if d == 2 {
        "2"
    } else if d == 3 {
        "3"
    } else if d == 4 {
        "4"
    } else if d == 5 {
        "5"
    } else if d == 6 {
        "6"
    } else if d == 7 {
        "7"
    } else if d == 8 {
        "8"
    } else if d == 9 {
        "9"
    } else if d == 10 {
        "a"
    } else if d == 11 {
        "b"
    } else if d == 12 {
        "c"
    } else if d == 13 {
        "d"
    } else if d == 14 {
        "e"
    } else {
        "f"
    };
    assert(r@ =~= seq![hex_char(d)]);
    r
}

/// The hyphenated lower-case text of an identifier, which is how a UUID is
/// shown and sent.
pub fn id_text(id: u128) -> (r: String)
    ensures
        r@ == uuid_text(id),
{
    let mut r = String::new();
    let mut i: usize = 0;
    while i < 36
        invariant
            i <= 36,
            r@ == uuid_text(id).take(i as int),
        decreases 36 - i,
    {
        if i == 8 || i == 13 || i == 18 || i == 23 {
            proof {
                reveal_strlit("-");
            }
            r.append("-");
        } else {
            let k: usize = if i < 8 {
                i
            } else if i < 13 {
                i - 1
            } else if i < 18 {
                i - 2
            } else if i < 23 {
                i - 3
            } else {
                i - 4
            };
            let shift: u128 = ((31 - k) * 4) as u128;
            let d: u128 = (id >> shift) & 0xf;
            assert(d < 16) by (bit_vector)
                requires
                    d == (id >> shift) & 0xf,
            ;
            assert(d == hex_digit(id, k as int));
            r.append(hex_text(d));
        }
        assert(uuid_text(id).take(i + 1) =~= uuid_text(id).take(i as int).push(
            uuid_text(id)[i as int],
        ));
        i += 1;
    }
    assert(uuid_text(id).take(36) =~= uuid_text(id));
    r
}

/// Calls `Uuid::new_v4` and takes the UUID's 128-bit value. The crate draws 128
/// random bits and then sets the version digit to 4 and the variant bits to
/// `10`; only those marks are claimed here. The crate gives up where the
/// operating system delivers no random bytes, and offers no call that fails
/// instead.
#[verifier::external_body]
pub(crate) fn random_id() -> (id: u128)
    ensures
        is_random_id(id),
{
    uuid::Uuid::new_v4().as_u128()
}

/// Calls `Uuid::parse_str` and takes the value of the UUID parsed. The result is
/// a function of the text alone and is only named.
#[verifier::external_body]
pub(crate) fn parse_id(text: &str) -> (r: Option<u128>)
    ensures
        r == uuid_value(text@),
{
    match uuid::Uuid::parse_str(text) {
        Ok(id) => Some(id.as_u128()),
        Err(_) => None,
    }
}

/// Calls `DateTime::from_timestamp` and says whether it gave a value. The crate
/// gives one where the day of the second lies between its first and last date
/// and the nanoseconds are below 10^9, or below 2 * 10^9 in second 59 of a
/// minute, which is what [`timestamp_in_range`] states.
#[verifier::external_body]
fn instant_in_range(secs: i64, nanos: u32) -> (r: bool)
    ensures
        r == timestamp_in_range(secs, nanos),
{
    chrono::DateTime::from_timestamp(secs, nanos).is_some()
}

/// Reads the system clock and calls `From<SystemTime>` of `DateTime<Utc>`, then
/// takes the seconds and nanoseconds of what it returns. The crate documents
/// that these two give the same `DateTime` back through
/// `DateTime::from_timestamp`, which is all that is claimed. A clock set before
/// 1970 gives an instant before 1970; the conversion gives up only on a clock
/// set past the year 262142.
#[verifier::external_body]
fn clock_now() -> (r: (i64, u32))
    ensures
        timestamp_in_range(r.0, r.1),
{
    let now = chrono::DateTime::<chrono::Utc>::from(std::time::SystemTime::now());
    (now.timestamp(), now.timestamp_subsec_nanos())
}

/// Calls `DateTime::to_rfc3339_opts(SecondsFormat::AutoSi, true)` on the instant.
/// The result is a function of the instant alone and is named. One fact is
/// stated of it: the crate writes digits, a sign, `-`, `:`, `.`, `T` and `Z`,
/// so the text holds no line break.
#[verifier::external_body]
fn instant_text(secs: i64, nanos: u32) -> (r: String)
    requires
        timestamp_in_range(secs, nanos),
    ensures
        r@ == rfc3339_text(secs, nanos),
        single_line(r@),
{
    let at = chrono::DateTime::from_timestamp(secs, nanos).unwrap();
    at.to_rfc3339_opts(chrono::SecondsFormat::AutoSi, true)
}

/// Parses a `DateTime<FixedOffset>` from the text, moves it to UTC and takes
/// its seconds and nanoseconds. The result is a function of the text alone and
/// is named; that `chrono` can hold the instant again is the crate's documented
/// round trip between `timestamp`, `timestamp_subsec_nanos` and `from_timestamp`.
#[verifier::external_body]
fn parse_instant(text: &str) -> (r: Option<(i64, u32)>)
    ensures
        r == rfc3339_instant(text@),
        r matches Some(at) ==> timestamp_in_range(at.0, at.1),
{
    match text.parse::<chrono::DateTime<chrono::FixedOffset>>() {
        Ok(at) => {
            let utc = at.with_timezone(&chrono::Utc);
            Some((utc.timestamp(), utc.timestamp_subsec_nanos()))
        },
        Err(_) => None,
    }
}

/// Calls `TimeZone::offset_from_utc_datetime` of `chrono::Local` for the
/// instant and takes the seconds of the `FixedOffset` that it gives. Which
/// offset that is depends on the time zone that the machine is set to, so it
/// gets no name. What is claimed holds of every `FixedOffset`: the crate makes
/// one only for less than a day either way. The crate gives up where the
/// machine's time-zone data holds an offset of a day or more.
#[verifier::external_body]
fn local_offset(secs: i64, nanos: u32) -> (offset: i32)
    requires
        timestamp_in_range(secs, nanos),
    ensures
        is_zone_offset(offset),
{
    let at = chrono::DateTime::from_timestamp(secs, nanos).unwrap();
    chrono::TimeZone::offset_from_utc_datetime(&chrono::Local, &at.naive_utc()).local_minus_utc()
}

/// Moves the instant to the zone `FixedOffset::east_opt(offset)` and calls
/// `DateTime::format` with `%m/%d/%Y %H:%M`. The result is a function of the
/// instant and the offset alone and is only named.
#[verifier::external_body]
fn clock_at(secs: i64, nanos: u32, offset: i32) -> (r: String)
    requires
        timestamp_in_range(secs, nanos),
        is_zone_offset(offset),
    ensures
        r@ == clock_face(secs, nanos, offset),
{
    let zone = chrono::FixedOffset::east_opt(offset).unwrap();
    let at = chrono::DateTime::from_timestamp(secs, nanos).unwrap();
    at.with_timezone(&zone).format("%m/%d/%Y %H:%M").to_string()
}

} // verus!

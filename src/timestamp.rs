use vstd::prelude::*;

use crate::decode::{DecodeError, Record};
use crate::json::{Json, JsonView};

verus! {

/// The first second that a timestamp can hold: -9999-01-01T00:00:00Z.
pub const MIN_UNIX_SECONDS: i64 = -377_705_116_800;

/// The last second that a timestamp can hold: 9999-12-31T23:59:59Z.
pub const MAX_UNIX_SECONDS: i64 = 253_402_300_799;

/// The first second of the year 0, before which RFC 3339 has no text.
pub const YEAR_ZERO_UNIX_SECONDS: i64 = -62_167_219_200;

/// The largest UTC offset that an RFC 3339 text can give, 23:59, in seconds.
pub const MAX_OFFSET_SECONDS: i64 = 86_340;

/// An instant, as whole seconds since the Unix epoch and nanoseconds past them.
#[derive(Clone, Copy, Debug, PartialEq, Eq)]
pub struct Timestamp {
    pub seconds: i64,
    pub nanos: u32,
}

impl Timestamp {
    /// The timestamp is one that Unix seconds or an RFC 3339 text can name:
    /// from -9999-01-01T00:00:00Z up to the last local second of the year
    /// 9999 at the largest offset west of UTC.
    pub open spec fn wf(self) -> bool {
        &&& MIN_UNIX_SECONDS <= self.seconds <= MAX_UNIX_SECONDS + MAX_OFFSET_SECONDS
        &&& self.nanos < 1_000_000_000
    }

    /// RFC 3339 can write this instant in UTC: it falls in the years 0 to 9999.
    pub open spec fn writable(self) -> bool {
        YEAR_ZERO_UNIX_SECONDS <= self.seconds <= MAX_UNIX_SECONDS
    }

    /// The instant `seconds` after the epoch, where the calendar covers it.
    pub open spec fn of_unix(seconds: i64) -> Option<Timestamp> {
        if MIN_UNIX_SECONDS <= seconds <= MAX_UNIX_SECONDS {
            Some(Timestamp { seconds, nanos: 0 })
        } else {
            None
        }
    }

    /// The instant `seconds` after the Unix epoch.
    pub fn from_unix_seconds(seconds: i64) -> (r: Option<Timestamp>)
        ensures
            r == Timestamp::of_unix(seconds),
            r matches Some(t) ==> t.wf(),
    {
        unix_instant(seconds)
    }

    /// The instant that an RFC 3339 text names.
    pub fn parse_rfc3339(text: &str) -> (r: Option<Timestamp>)
        ensures
            r == rfc3339_instant(text@),
            r matches Some(t) ==> t.wf(),
    {
        parse_rfc3339_text(text)
    }

    /// Nanoseconds since the Unix epoch.
    pub fn unix_nanos(&self) -> (r: i128)
        requires
            self.wf(),
        ensures
            r == self.seconds * 1_000_000_000 + self.nanos,
    {
        assert(-377_705_116_800_000_000_000 <= self.seconds * 1_000_000_000 <= 253_402_387_139_000_000_000)
            by (nonlinear_arith)
            requires
                MIN_UNIX_SECONDS <= self.seconds <= MAX_UNIX_SECONDS + MAX_OFFSET_SECONDS,
        ;
        self.seconds as i128 * 1_000_000_000 + self.nanos as i128
    }

    /// The RFC 3339 text of this instant in UTC; `None` outside the years 0
    /// to 9999, which that format cannot write.
    pub fn to_rfc3339(&self) -> (r: Option<String>)
        requires
            self.wf(),
        ensures
            r is Some <==> self.writable(),
            r matches Some(text) ==> rfc3339_instant(text@) == Some(*self),
    {
        format_rfc3339(self.unix_nanos())
    }
}

impl Timestamp {
    /// This instant as a JSON member value: its RFC 3339 text. Decoding that
    /// value again, as text or as a timestamp member of either form, gives
    /// back this instant.
    pub fn to_json(&self) -> (r: Option<Json>)
        requires
            self.wf(),
        ensures
            r is Some <==> self.writable(),
            r matches Some(j) ==> (j@ matches JsonView::Str(text) && rfc3339_instant(text) == Some(*self)),
            r matches Some(j) ==> Timestamp::accepts(j@) && self.describes(j@),
    {
        match self.to_rfc3339() {
            Some(text) => Some(Json::Str(text)),
            None => None,
        }
    }
}

/// The instant that the `time` crate reads from an RFC 3339 text, if it reads one.
pub uninterp spec fn rfc3339_instant(text: Seq<char>) -> Option<Timestamp>;

/// Relies on `time::OffsetDateTime::from_unix_timestamp`, which accepts
/// exactly the seconds from -9999-01-01T00:00:00Z to 9999-12-31T23:59:59Z.
#[verifier::external_body]
fn unix_instant(seconds: i64) -> (r: Option<Timestamp>)
    ensures
        r == Timestamp::of_unix(seconds),
{
    match time::OffsetDateTime::from_unix_timestamp(seconds) {
        Ok(t) => Some(Timestamp { seconds: t.unix_timestamp(), nanos: t.nanosecond() }),
        Err(_) => None,
    }
}

/// Relies on `time::OffsetDateTime::parse` with `Rfc3339`: the instant read
/// depends on the text alone. The text's local date has a four-digit year and
/// its offset is at most 23:59 either way, so the instant lies between the
/// start of the year 0 less that offset and the end of the year 9999 plus it;
/// `nanosecond` is below one second.
#[verifier::external_body]
fn parse_rfc3339_text(text: &str) -> (r: Option<Timestamp>)
    ensures
        r == rfc3339_instant(text@),
        r matches Some(t) ==> {
            &&& YEAR_ZERO_UNIX_SECONDS - MAX_OFFSET_SECONDS <= t.seconds <= MAX_UNIX_SECONDS
                + MAX_OFFSET_SECONDS
            &&& t.nanos < 1_000_000_000
        },
{
    match time::OffsetDateTime::parse(text, &time::format_description::well_known::Rfc3339) {
        Ok(t) => Some(Timestamp { seconds: t.unix_timestamp(), nanos: t.nanosecond() }),
        Err(_) => None,
    }
}

/// Relies on `time::OffsetDateTime::from_unix_timestamp_nanos`, which fails
/// outside -9999-01-01T00:00:00Z to the end of 9999-12-31T23:59:59Z, and on
/// its `format` with `Rfc3339`, which writes a UTC instant as `...Z` for the
/// years 0 to 9999 and fails outside them; `parse` with `Rfc3339` reads the
/// same instant back from that text.
#[verifier::external_body]
fn format_rfc3339(unix_nanos: i128) -> (r: Option<String>)
    ensures
        r is Some <==> YEAR_ZERO_UNIX_SECONDS * 1_000_000_000 <= unix_nanos < (MAX_UNIX_SECONDS + 1)
            * 1_000_000_000,
        r matches Some(text) ==> rfc3339_instant(text@) == Some(
            Timestamp {
                seconds: (unix_nanos / 1_000_000_000) as i64,
                nanos: (unix_nanos % 1_000_000_000) as u32,
            },
        ),
{
    match time::OffsetDateTime::from_unix_timestamp_nanos(unix_nanos) {
        Ok(t) => t.format(&time::format_description::well_known::Rfc3339).ok(),
        Err(_) => None,
    }
}

/// The instant that a value written either as Unix seconds or as RFC 3339
/// text names.
pub open spec fn flexible_instant(v: JsonView) -> Option<Timestamp> {
    match v {
        JsonView::Int(seconds) => Timestamp::of_unix(seconds),
        JsonView::Str(text) => rfc3339_instant(text),
        _ => None,
    }
}

/// A timestamp member, written either as RFC 3339 text or, in the older
/// form, as whole seconds since the Unix epoch. Both forms of one instant
/// decode to the same timestamp.
impl Record for Timestamp {
    open spec fn accepts(j: JsonView) -> bool {
        flexible_instant(j) is Some
    }

    open spec fn describes(&self, j: JsonView) -> bool {
        &&& flexible_instant(j) == Some(*self)
        &&& self.wf()
    }

    open spec fn mismatch(j: JsonView) -> bool {
        !Self::accepts(j)
    }

    fn from_json(j: &Json) -> (r: Result<Timestamp, DecodeError>) {
        let t = match j {
            Json::Int(seconds) => Timestamp::from_unix_seconds(*seconds),
            Json::Str(text) => Timestamp::parse_rfc3339(text.as_str()),
            _ => None,
        };
        match t {
            Some(t) => Ok(t),
            None => Err(DecodeError::Mismatch),
        }
    }
}

/// Decodes an optional timestamp value: `null` stands for no timestamp, an
/// integer for Unix seconds, and text for an RFC 3339 instant.
pub fn deserialize(v: &Json) -> (r: Result<Option<Timestamp>, DecodeError>)
    ensures
        v@ == JsonView::Null ==> r == Ok::<Option<Timestamp>, DecodeError>(None),
        v@ != JsonView::Null ==> {
            &&& r is Ok <==> Timestamp::accepts(v@)
            &&& r matches Ok(t) ==> (t matches Some(t) && t.describes(v@) && t.wf())
            &&& r matches Err(e) ==> e == DecodeError::Mismatch
        },
{
    match v {
        Json::Null => Ok(None),
        _ => match Timestamp::from_json(v) {
            Ok(t) => Ok(Some(t)),
            Err(_) => Err(DecodeError::Mismatch),
        },
    }
}

/// Encodes an optional timestamp: `null` for none, its RFC 3339 text in UTC
/// otherwise. `None` where the instant lies outside the years 0 to 9999,
/// which RFC 3339 cannot write.
pub fn serialize(value: &Option<Timestamp>) -> (r: Option<Json>)
    requires
        value matches Some(t) ==> t.wf(),
    ensures
        match value {
            None => r matches Some(j) && j@ == JsonView::Null,
            Some(t) => {
                &&& r is Some <==> t.writable()
                &&& r matches Some(j) ==> (j@ matches JsonView::Str(text) && rfc3339_instant(text)
                    == Some(*t))
                &&& r matches Some(j) ==> t.describes(j@)
            },
        },
{
    match value {
        None => Some(Json::Null),
        Some(t) => t.to_json(),
    }
}

/// Decoding a timestamp, writing it as RFC 3339 text and decoding that text
/// again gives the instant of the first decoding, whether that read Unix
/// seconds or RFC 3339 text.
pub proof fn lemma_timestamp_round_trip(input: JsonView, decoded: Timestamp, text: Seq<char>, again: Timestamp)
    requires
        decoded.describes(input),
        rfc3339_instant(text) == Some(decoded),
        again.describes(JsonView::Str(text)),
    ensures
        again == decoded,
        flexible_instant(JsonView::Str(text)) == flexible_instant(input),
{
}

} // verus!

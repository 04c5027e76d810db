//! Instants on the UTC time line, to the nanosecond.
use vstd::prelude::*;

verus! {

/// The seconds and nanoseconds that name an instant chrono can represent: the years -262143 to
/// 262142, and a nanosecond count that exceeds a second only within the last second of a minute.
pub open spec fn representable(secs: int, nanos: int) -> bool {
    &&& -8334601228800 <= secs <= 8210266876799
    &&& 0 <= nanos < 2000000000
    &&& nanos >= 1000000000 ==> secs % 60 == 59
}

/// An instant: seconds since the Unix epoch and the nanoseconds into that second.
#[derive(Clone, Copy, Debug, PartialEq, Eq, Structural)]
pub struct UtcTime {
    secs: i64,
    nanos: u32,
}

/// Milliseconds, then `Z`.
pub const MILLIS_ZULU: &'static str = "%Y-%m-%dT%H:%M:%S%.3fZ";

/// Milliseconds, then a zero offset.
pub const MILLIS_OFFSET: &'static str = "%Y-%m-%dT%H:%M:%S%.3f+00:00";

/// What `chrono::DateTime::parse_from_rfc3339` reads in a text: the instant, or the error's text.
pub uninterp spec fn rfc3339_reading(text: Seq<char>) -> Result<(i64, u32), Seq<char>>;

/// What `chrono::DateTime::format` writes for an instant and a pattern.
pub uninterp spec fn pattern_text(secs: i64, nanos: u32, pattern: Seq<char>) -> Seq<char>;

/// What `chrono::DateTime::to_rfc3339` writes for an instant.
pub uninterp spec fn rfc3339_writing(secs: i64, nanos: u32) -> Seq<char>;

/// What `chrono::DateTime::to_rfc3339_opts` writes for an instant with as many digits as it needs
/// and with `Z`, which is what chrono serializes it to.
pub uninterp spec fn serialized_writing(secs: i64, nanos: u32) -> Seq<char>;

/// `chrono::DateTime::parse_from_rfc3339`: the instant as seconds and nanoseconds, or the text of
/// the error. Every instant it yields is one that chrono can represent.
#[verifier::external_body]
fn chrono_parse_rfc3339(text: &str) -> (r: Result<(i64, u32), String>)
    ensures
        match r {
            Ok(t) => rfc3339_reading(text@) == Ok::<(i64, u32), Seq<char>>(t) && representable(
                t.0 as int,
                t.1 as int,
            ),
            Err(e) => rfc3339_reading(text@) == Err::<(i64, u32), Seq<char>>(e@),
        },
{
    match chrono::DateTime::parse_from_rfc3339(text) {
        Ok(t) => Ok((t.timestamp(), t.timestamp_subsec_nanos())),
        Err(e) => Err(e.to_string()),
    }
}

/// `chrono::DateTime::format` of a representable instant in one of the two patterns of this
/// module, both of which chrono accepts.
#[verifier::external_body]
fn chrono_format(secs: i64, nanos: u32, pattern: &str) -> (r: String)
    requires
        representable(secs as int, nanos as int),
        pattern@ == MILLIS_ZULU@ || pattern@ == MILLIS_OFFSET@,
    ensures
        r@ == pattern_text(secs, nanos, pattern@),
{
    chrono::DateTime::from_timestamp(secs, nanos).unwrap().format(pattern).to_string()
}

/// `chrono::DateTime::to_rfc3339` of a representable instant in UTC.
#[verifier::external_body]
fn chrono_to_rfc3339(secs: i64, nanos: u32) -> (r: String)
    requires
        representable(secs as int, nanos as int),
    ensures
        r@ == rfc3339_writing(secs, nanos),
{
    chrono::DateTime::from_timestamp(secs, nanos).unwrap().to_rfc3339()
}

/// `chrono::DateTime::to_rfc3339_opts` of a representable instant in UTC, with as many digits as it
/// needs and with `Z`.
#[verifier::external_body]
fn chrono_serialize(secs: i64, nanos: u32) -> (r: String)
    requires
        representable(secs as int, nanos as int),
    ensures
        r@ == serialized_writing(secs, nanos),
{
    let at = chrono::DateTime::from_timestamp(secs, nanos).unwrap();
    at.to_rfc3339_opts(chrono::SecondsFormat::AutoSi, true)
}

/// The instant a number of days after another, as seconds and nanoseconds. Whole days have no leap
/// second, so an instant within one is carried out of it: forward from its start, backward from its
/// end.
pub open spec fn days_later(secs: int, nanos: int, days: int) -> (int, int) {
    if nanos >= 1000000000 && days > 0 {
        (secs + 86400 * days, nanos - 1000000000)
    } else if nanos >= 1000000000 && days < 0 {
        (secs + 1 + 86400 * days, nanos - 1000000000)
    } else {
        (secs + 86400 * days, nanos)
    }
}

/// `chrono::DateTime::checked_add_signed` of a representable instant and a `chrono::TimeDelta` of
/// whole days: the later instant, unless chrono cannot represent it.
#[verifier::external_body]
fn chrono_add_days(secs: i64, nanos: u32, days: i64) -> (r: Option<(i64, u32)>)
    requires
        representable(secs as int, nanos as int),
    ensures
        ({
            let (later_secs, later_nanos) = days_later(secs as int, nanos as int, days as int);
            match r {
                Some(t) => t.0 == later_secs && t.1 == later_nanos && representable(
                    later_secs,
                    later_nanos,
                ),
                None => !representable(later_secs, later_nanos),
            }
        }),
{
    let start = chrono::DateTime::from_timestamp(secs, nanos).unwrap();
    let later = start.checked_add_signed(chrono::TimeDelta::try_days(days)?)?;
    Some((later.timestamp(), later.timestamp_subsec_nanos()))
}

impl UtcTime {
    #[verifier::type_invariant]
    spec fn in_range(self) -> bool {
        representable(self.secs as int, self.nanos as int)
    }

    /// Seconds since the Unix epoch.
    pub closed spec fn spec_secs(self) -> i64 {
        self.secs
    }

    /// Nanoseconds into the second.
    pub closed spec fn spec_nanos(self) -> u32 {
        self.nanos
    }

    /// The instant with these seconds and nanoseconds.
    pub closed spec fn spec_new(secs: i64, nanos: u32) -> UtcTime {
        UtcTime { secs, nanos }
    }

    /// An instant is made of its seconds and nanoseconds.
    pub broadcast proof fn made_of_parts(secs: i64, nanos: u32)
        ensures
            (#[trigger] UtcTime::spec_new(secs, nanos)).spec_secs() == secs,
            UtcTime::spec_new(secs, nanos).spec_nanos() == nanos,
    {
    }

    /// The instant with these seconds and nanoseconds, where chrono can represent it.
    pub fn from_parts(secs: i64, nanos: u32) -> (r: Option<UtcTime>)
        ensures
            r is Some <==> representable(secs as int, nanos as int),
            r matches Some(t) ==> t == UtcTime::spec_new(secs, nanos),
    {
        if secs < -8334601228800 || secs > 8210266876799 || nanos >= 2000000000 {
            return None;
        }
        if nanos >= 1000000000 {
            let shifted: u64 = (secs + 8334601228800) as u64;
            assert((secs + 8334601228800) % 60 == secs % 60) by (nonlinear_arith);
            if shifted % 60 != 59 {
                return None;
            }
        }
        Some(UtcTime { secs, nanos })
    }

    /// Seconds since the Unix epoch.
    pub fn secs(&self) -> (r: i64)
        ensures
            r == self.spec_secs(),
    {
        self.secs
    }

    /// Nanoseconds into the second.
    pub fn nanos(&self) -> (r: u32)
        ensures
            r == self.spec_nanos(),
    {
        self.nanos
    }

    /// The instant a number of days later, where chrono can represent it.
    pub open spec fn days_on(self, days: i64) -> Option<UtcTime> {
        let later = days_later(self.spec_secs() as int, self.spec_nanos() as int, days as int);
        if representable(later.0, later.1) {
            Some(UtcTime::spec_new(later.0 as i64, later.1 as u32))
        } else {
            None
        }
    }

    /// The instant a number of days later, where chrono can represent it.
    pub fn plus_days(&self, days: i64) -> (r: Option<UtcTime>)
        ensures
            r == self.days_on(days),
    {
        proof {
            use_type_invariant(self);
        }
        match chrono_add_days(self.secs, self.nanos, days) {
            Some((secs, nanos)) => Some(UtcTime { secs, nanos }),
            None => None,
        }
    }

    /// The instant that an RFC 3339 text names, or the text of the error.
    pub fn parse_rfc3339(text: &str) -> (r: Result<UtcTime, String>)
        ensures
            match r {
                Ok(t) => rfc3339_time(text@) == Ok::<UtcTime, Seq<char>>(t),
                Err(e) => rfc3339_time(text@) == Err::<UtcTime, Seq<char>>(e@),
            },
    {
        match chrono_parse_rfc3339(text) {
            Ok((secs, nanos)) => Ok(UtcTime { secs, nanos }),
            Err(e) => Err(e),
        }
    }

    /// The instant with milliseconds and `Z`, as Oracle timestamp masks expect it.
    pub fn millis_zulu(&self) -> (r: String)
        ensures
            r@ == pattern_text(self.spec_secs(), self.spec_nanos(), MILLIS_ZULU@),
    {
        proof {
            use_type_invariant(self);
        }
        chrono_format(self.secs, self.nanos, MILLIS_ZULU)
    }

    /// The instant with milliseconds and a zero offset.
    pub fn millis_offset(&self) -> (r: String)
        ensures
            r@ == pattern_text(self.spec_secs(), self.spec_nanos(), MILLIS_OFFSET@),
    {
        proof {
            use_type_invariant(self);
        }
        chrono_format(self.secs, self.nanos, MILLIS_OFFSET)
    }

    /// The instant in RFC 3339 notation.
    pub fn to_rfc3339(&self) -> (r: String)
        ensures
            r@ == rfc3339_writing(self.spec_secs(), self.spec_nanos()),
    {
        proof {
            use_type_invariant(self);
        }
        chrono_to_rfc3339(self.secs, self.nanos)
    }

    /// The instant as it is serialized, as plain values.
    pub open spec fn serialized(self) -> Seq<char> {
        serialized_writing(self.spec_secs(), self.spec_nanos())
    }

    /// The instant as it is serialized.
    pub fn to_serialized(&self) -> (r: String)
        ensures
            r@ == self.serialized(),
    {
        proof {
            use_type_invariant(self);
        }
        chrono_serialize(self.secs, self.nanos)
    }
}

/// What `UtcTime::parse_rfc3339` gives for a text.
pub open spec fn rfc3339_time(text: Seq<char>) -> Result<UtcTime, Seq<char>> {
    match rfc3339_reading(text) {
        Ok(parts) => Ok(UtcTime::spec_new(parts.0, parts.1)),
        Err(e) => Err(e),
    }
}

} // verus!

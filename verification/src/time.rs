//! Instants in UTC, as the plain numbers that `chrono` counts them in.

use vstd::prelude::*;

verus! {

/// Whether `chrono::DateTime::from_timestamp` accepts the two numbers.
pub uninterp spec fn valid_timestamp(secs: i64, nanos: u32) -> bool;

/// The text that `chrono` writes for the instant when it serialises a
/// `DateTime<Utc>`: RFC 3339 with the `Z` suffix.
pub uninterp spec fn serialized_time(secs: i64, nanos: u32) -> Seq<char>;

/// The text of `DateTime::<Utc>::to_rfc3339` for the instant: RFC 3339 with
/// a numeric offset.
pub uninterp spec fn rfc3339_text(secs: i64, nanos: u32) -> Seq<char>;

/// An instant in UTC: whole seconds since 1970-01-01T00:00:00Z and the
/// nanoseconds past that second. Every value is one that `chrono` can
/// represent.
#[derive(Debug, Clone, Copy, PartialEq, Eq)]
pub struct Timestamp {
    pub(crate) secs: i64,
    pub(crate) nanos: u32,
}

impl Timestamp {
    #[verifier::type_invariant]
    spec fn representable(self) -> bool {
        valid_timestamp(self.secs, self.nanos)
    }

    /// Seconds since the epoch.
    pub closed spec fn spec_secs(&self) -> i64 {
        self.secs
    }

    /// Nanoseconds past the second.
    pub closed spec fn spec_nanos(&self) -> u32 {
        self.nanos
    }

    /// The serialised form of the instant.
    pub open spec fn serialized(self) -> Seq<char> {
        serialized_time(self.spec_secs(), self.spec_nanos())
    }

    /// The instant `secs` seconds and `nanos` nanoseconds after the epoch,
    /// where `chrono` can represent it.
    pub fn new(secs: i64, nanos: u32) -> (r: Option<Timestamp>)
        ensures
            r is Some <==> valid_timestamp(secs, nanos),
            r matches Some(t) ==> t.spec_secs() == secs && t.spec_nanos() == nanos,
    {
        if timestamp_in_range(secs, nanos) {
            Some(Timestamp { secs, nanos })
        } else {
            None
        }
    }

    /// Seconds since the epoch.
    #[verifier::when_used_as_spec(spec_secs)]
    pub fn secs(&self) -> (r: i64)
        ensures
            r == self.spec_secs(),
    {
        self.secs
    }

    /// Nanoseconds past the second.
    #[verifier::when_used_as_spec(spec_nanos)]
    pub fn nanos(&self) -> (r: u32)
        ensures
            r == self.spec_nanos(),
    {
        self.nanos
    }

    /// The instant as RFC 3339 text with a numeric offset, such as
    /// `2024-01-01T00:00:00+00:00`.
    pub fn to_rfc3339(&self) -> (r: String)
        ensures
            r@ == rfc3339_text(self.spec_secs(), self.spec_nanos()),
    {
        proof {
            use_type_invariant(self);
        }
        rfc3339_of(self.secs, self.nanos)
    }
}

/// `DateTime::from_timestamp`, asked only whether it gives a value.
#[verifier::external_body]
fn timestamp_in_range(secs: i64, nanos: u32) -> (r: bool)
    ensures
        r == valid_timestamp(secs, nanos),
{
    chrono::DateTime::from_timestamp(secs, nanos).is_some()
}

/// `DateTime::from_timestamp` followed by `DateTime::to_rfc3339`.
#[verifier::external_body]
fn rfc3339_of(secs: i64, nanos: u32) -> (r: String)
    requires
        valid_timestamp(secs, nanos),
    ensures
        r@ == rfc3339_text(secs, nanos),
{
    chrono::DateTime::from_timestamp(secs, nanos).unwrap_or_default().to_rfc3339()
}

/// `chrono::Utc::now`, as seconds and nanoseconds. `chrono` documents that
/// `from_timestamp` takes back what `timestamp` and
/// `timestamp_subsec_nanos` give, so the result is representable. Nothing
/// else is known of it. `Utc::now` panics on a system clock set before the
/// epoch.
#[verifier::external_body]
pub(crate) fn utc_now() -> (r: Timestamp) {
    let now = chrono::Utc::now();
    Timestamp { secs: now.timestamp(), nanos: now.timestamp_subsec_nanos() }
}

} // verus!

//! Points in time, the reading of the system clock, and the text in which a
//! point in time is written out.

use vstd::prelude::*;

verus! {

/// The number of nanoseconds in a second.
pub const NANOS_PER_SECOND: u32 = 1_000_000_000;

/// The text in which `chrono` writes, in the format of RFC 3339 and in UTC,
/// the point in time that lies `secs` seconds and `nanos` nanoseconds after
/// the start of 1970; nothing where `chrono` has no such point in time.
pub uninterp spec fn rfc3339_text(secs: i64, nanos: u32) -> Option<Seq<char>>;

/// A point in time on the UTC time line: whole seconds since the start of
/// 1970, and the nanoseconds that have passed since that second began. Every
/// value is a point in time that `chrono` has, and so one that can be written
/// out.
#[derive(Clone, Copy, Debug, PartialEq, Eq, Structural)]
pub struct Timestamp {
    secs: i64,
    nanos: u32,
}

impl Timestamp {
    #[verifier::type_invariant]
    spec fn can_be_written(self) -> bool {
        rfc3339_text(self.secs, self.nanos) is Some
    }

    /// The whole seconds since the start of 1970.
    pub closed spec fn spec_secs(&self) -> i64 {
        self.secs
    }

    /// The nanoseconds since the last whole second.
    pub closed spec fn spec_nanos(&self) -> u32 {
        self.nanos
    }

    /// The point in time written out in the format of RFC 3339.
    pub open spec fn text(self) -> Seq<char> {
        rfc3339_text(self.spec_secs(), self.spec_nanos())->0
    }

    /// The point in time `secs` seconds and `nanos` nanoseconds after the
    /// start of 1970, if `chrono` has such a point in time.
    pub fn new(secs: i64, nanos: u32) -> (point: Option<Timestamp>)
        ensures
            point is Some <==> rfc3339_text(secs, nanos) is Some,
            point is Some ==> point->0.spec_secs() == secs && point->0.spec_nanos() == nanos,
    {
        match render(secs, nanos) {
            Some(_) => Some(Timestamp { secs, nanos }),
            None => None,
        }
    }

    /// The whole seconds since the start of 1970.
    #[verifier::when_used_as_spec(spec_secs)]
    pub fn secs(&self) -> (secs: i64)
        ensures
            secs == self.spec_secs(),
    {
        self.secs
    }

    /// The nanoseconds since the last whole second.
    #[verifier::when_used_as_spec(spec_nanos)]
    pub fn nanos(&self) -> (nanos: u32)
        ensures
            nanos == self.spec_nanos(),
    {
        self.nanos
    }

    /// Writes the point in time out in the format of RFC 3339.
    pub fn to_rfc3339(&self) -> (text: String)
        ensures
            text@ == self.text(),
            rfc3339_text(self.spec_secs(), self.spec_nanos()) == Some(text@),
    {
        proof {
            use_type_invariant(self);
        }
        match render(self.secs, self.nanos) {
            Some(text) => text,
            None => vstd::pervasive::unreached(),
        }
    }
}

/// Reads the system clock.
///
/// Trusted: the body calls `chrono::Utc::now` and takes the reading apart with
/// `DateTime::timestamp` and `DateTime::timestamp_subsec_nanos`. Nothing is
/// claimed about which point in time comes back. Two things hold of every
/// reading. The nanoseconds stay below one second, as `chrono` builds the
/// reading from `Duration::subsec_nanos`. And the reading is a point in time
/// that `chrono` has: `DateTime::from_timestamp` gives back the date and time
/// from which the two parts were taken, as its documentation shows. `chrono`
/// panics where the system clock stands before 1970.
#[verifier::external_body]
pub(crate) fn now() -> (reading: Timestamp)
    ensures
        reading.spec_nanos() < NANOS_PER_SECOND,
        rfc3339_text(reading.spec_secs(), reading.spec_nanos()) is Some,
{
    let reading = chrono::Utc::now();
    Timestamp { secs: reading.timestamp(), nanos: reading.timestamp_subsec_nanos() }
}

/// Writes a point in time out in the format of RFC 3339, if there is such a
/// point in time.
///
/// Trusted: the body calls `chrono::DateTime::from_timestamp` and, on what it
/// gives, `DateTime::to_rfc3339`. What comes back is a function of the two
/// numbers alone, since the text is written in UTC; the contract gives it the
/// name [`rfc3339_text`] and claims nothing else of it.
#[verifier::external_body]
fn render(secs: i64, nanos: u32) -> (text: Option<String>)
    ensures
        match text {
            Some(written) => rfc3339_text(secs, nanos) == Some(written@),
            None => rfc3339_text(secs, nanos) is None,
        },
{
    match chrono::DateTime::from_timestamp(secs, nanos) {
        Some(point) => Some(point.to_rfc3339()),
        None => None,
    }
}

} // verus!

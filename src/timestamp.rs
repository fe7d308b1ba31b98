//! Instants in UTC, as the node reports block and signature times.
use vstd::prelude::*;

verus! {

/// Whether chrono can represent, in UTC, the instant `secs` seconds after the
/// Unix epoch plus `nanos` nanoseconds.
pub uninterp spec fn utc_representable(secs: int, nanos: int) -> bool;

/// Relies on chrono's `DateTime::<Utc>::from_timestamp`, which gives an instant
/// exactly for the pairs that chrono can represent. Its source refuses a
/// nanosecond part of two seconds or more, and one of a second or more
/// outside the last second of a minute (where a leap second would fall).
#[verifier::external_body]
fn utc_accepts(secs: i64, nanos: u32) -> (r: bool)
    ensures
        r == utc_representable(secs as int, nanos as int),
        nanos >= 2_000_000_000 ==> !r,
        nanos >= 1_000_000_000 && secs as int % 60 != 59 ==> !r,
{
    chrono::DateTime::<chrono::Utc>::from_timestamp(secs, nanos).is_some()
}

/// An instant in UTC: whole seconds since the Unix epoch, and nanoseconds into
/// that second (a billion or more only during a leap second).
#[derive(Clone, Copy, Debug, PartialEq, Eq)]
pub struct Timestamp {
    secs: i64,
    nanos: u32,
}

impl Timestamp {
    #[verifier::type_invariant]
    spec fn representable(&self) -> bool {
        &&& self.nanos < 2_000_000_000
        &&& utc_representable(self.secs as int, self.nanos as int)
    }

    /// Whole seconds since the Unix epoch.
    pub closed spec fn spec_secs(&self) -> int {
        self.secs as int
    }

    /// Nanoseconds into the second.
    pub closed spec fn spec_nanos(&self) -> int {
        self.nanos as int
    }

    /// The instant `secs` seconds after the Unix epoch plus `nanos`
    /// nanoseconds, or `None` where that is no instant chrono can represent.
    pub fn new(secs: i64, nanos: u32) -> (r: Option<Timestamp>)
        ensures
            r is Some <==> utc_representable(secs as int, nanos as int),
            r matches Some(t) ==> t.spec_secs() == secs && t.spec_nanos() == nanos,
    {
        if utc_accepts(secs, nanos) {
            Some(Timestamp { secs, nanos })
        } else {
            None
        }
    }

    /// Whole seconds since the Unix epoch.
    pub fn secs(&self) -> (r: i64)
        ensures
            r == self.spec_secs(),
    {
        self.secs
    }

    /// Nanoseconds into the second.
    pub fn nanos(&self) -> (r: u32)
        ensures
            r == self.spec_nanos(),
            r < 2_000_000_000,
            utc_representable(self.spec_secs(), r as int),
    {
        proof {
            use_type_invariant(self);
        }
        self.nanos
    }
}

} // verus!

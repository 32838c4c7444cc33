use vstd::prelude::*;

verus! {

/// Whether `chrono` can hold the instant that lies `secs` whole seconds and
/// `nanos` nanoseconds after the Unix epoch: whether
/// `chrono::DateTime::from_timestamp(secs, nanos)` is `Some`.
pub uninterp spec fn representable(secs: i64, nanos: u32) -> bool;

/// The RFC 3339 text that `chrono::DateTime::to_rfc3339` gives for the UTC
/// instant `chrono::DateTime::from_timestamp(secs, nanos)`.
pub uninterp spec fn rfc3339_text(secs: i64, nanos: u32) -> Seq<char>;

/// Asks `chrono::DateTime::from_timestamp` whether it accepts the pair.
#[verifier::external_body]
fn chrono_accepts(secs: i64, nanos: u32) -> (ok: bool)
    ensures
        ok == representable(secs, nanos),
{
    chrono::DateTime::from_timestamp(secs, nanos).is_some()
}

/// Reads the system clock with `chrono::Utc::now` and takes the instant apart
/// with `timestamp` and `timestamp_subsec_nanos`. Which instant comes back is
/// not stated; every `DateTime<Utc>` gives a pair that `from_timestamp` takes
/// back, and only that is claimed.
#[verifier::external_body]
fn chrono_now() -> (parts: (i64, u32))
    ensures
        representable(parts.0, parts.1),
{
    let at = chrono::Utc::now();
    (at.timestamp(), at.timestamp_subsec_nanos())
}

/// Formats the instant with `chrono::DateTime::to_rfc3339`, after rebuilding
/// it with `chrono::DateTime::from_timestamp`. The precondition leaves out
/// the pairs that `from_timestamp` refuses, so the second arm is never taken.
#[verifier::external_body]
fn chrono_rfc3339(secs: i64, nanos: u32) -> (text: String)
    requires
        representable(secs, nanos),
    ensures
        text@ == rfc3339_text(secs, nanos),
{
    match chrono::DateTime::from_timestamp(secs, nanos) {
        Some(at) => at.to_rfc3339(),
        None => String::new(),
    }
}

/// An instant in UTC, held as whole seconds since the Unix epoch and the
/// nanoseconds past that second. Every value is one that `chrono` can hold.
#[derive(Clone, Copy, Debug, PartialEq, Eq, Structural)]
pub struct Timestamp {
    secs: i64,
    nanos: u32,
}

impl Timestamp {
    /// What every value of the type meets.
    #[verifier::type_invariant]
    spec fn representable_inv(self) -> bool {
        representable(self.secs, self.nanos)
    }

    /// Whole seconds since 1970-01-01T00:00:00Z.
    pub closed spec fn spec_secs(self) -> i64 {
        self.secs
    }

    /// Nanoseconds past the whole second.
    pub closed spec fn spec_nanos(self) -> u32 {
        self.nanos
    }

    /// The instant for the given parts, or `None` where `chrono` has no such
    /// instant.
    pub fn from_unix(secs: i64, nanos: u32) -> (at: Option<Timestamp>)
        ensures
            at is Some <==> representable(secs, nanos),
            at matches Some(t) ==> t.spec_secs() == secs && t.spec_nanos() == nanos,
    {
        if chrono_accepts(secs, nanos) {
            Some(Timestamp { secs, nanos })
        } else {
            None
        }
    }

    /// The current instant of the system clock. Which instant that is, no
    /// contract can say.
    pub fn now() -> (at: Timestamp)
        ensures
            representable(at.secs(), at.nanos()),
    {
        let parts = chrono_now();
        Timestamp { secs: parts.0, nanos: parts.1 }
    }

    /// Whole seconds since 1970-01-01T00:00:00Z.
    #[verifier::when_used_as_spec(spec_secs)]
    pub fn secs(self) -> (secs: i64)
        ensures
            secs == self.spec_secs(),
    {
        self.secs
    }

    /// Nanoseconds past the whole second.
    #[verifier::when_used_as_spec(spec_nanos)]
    pub fn nanos(self) -> (nanos: u32)
        ensures
            nanos == self.spec_nanos(),
    {
        self.nanos
    }

    /// The instant as RFC 3339 text.
    pub fn to_rfc3339(self) -> (text: String)
        ensures
            text@ == rfc3339_text(self.secs(), self.nanos()),
    {
        proof {
            use_type_invariant(self);
        }
        chrono_rfc3339(self.secs, self.nanos)
    }
}

} // verus!

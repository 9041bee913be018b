//! Points in time, counted from the Unix epoch.

use vstd::prelude::*;

verus! {

/// Nanoseconds in one second.
pub const NANOS_PER_SEC: u32 = 1_000_000_000;

/// An instant, given as the time elapsed since the Unix epoch.
#[derive(Clone, Copy, Debug, PartialEq, Eq, Structural)]
pub struct Timestamp {
    /// Whole seconds since the epoch.
    pub secs: u64,
    /// The fraction of a second on top of `secs`, in nanoseconds.
    pub nanos: u32,
}

impl Timestamp {
    /// The fraction is less than one second.
    pub open spec fn wf(self) -> bool {
        self.nanos < NANOS_PER_SEC
    }

    /// The instant as a number of nanoseconds since the epoch.
    pub open spec fn as_nanos(self) -> int {
        self.secs as int * (NANOS_PER_SEC as int) + self.nanos as int
    }

    /// `self` lies strictly before `other`: seconds decide, then the fraction.
    pub open spec fn precedes(self, other: Timestamp) -> bool {
        self.secs < other.secs || (self.secs == other.secs && self.nanos < other.nanos)
    }

    /// `secs` more seconds still fit.
    pub open spec fn can_advance(self, secs: u16) -> bool {
        self.secs as int + secs as int <= u64::MAX as int
    }

    /// The instant `secs` seconds after `self`.
    pub open spec fn advanced(self, secs: u16) -> Timestamp {
        Timestamp { secs: (self.secs as int + secs as int) as u64, nanos: self.nanos }
    }

    /// Builds an instant from whole seconds and a fraction.
    pub fn new(secs: u64, nanos: u32) -> (t: Timestamp)
        ensures
            t.secs == secs,
            t.nanos == nanos,
    {
        Timestamp { secs, nanos }
    }

    /// Whether `self` lies strictly before `other`.
    pub fn is_before(&self, other: &Timestamp) -> (b: bool)
        ensures
            b == self.precedes(*other),
    {
        self.secs < other.secs || (self.secs == other.secs && self.nanos < other.nanos)
    }

    /// The instant `secs` seconds later, or `None` where the seconds no longer fit.
    pub fn checked_advance(&self, secs: u16) -> (t: Option<Timestamp>)
        ensures
            self.can_advance(secs) ==> t == Some(self.advanced(secs)),
            !self.can_advance(secs) ==> t is None,
            self.wf() ==> (t matches Some(later) ==> later.wf()),
    {
        let extra: u64 = secs as u64;
        if self.secs <= u64::MAX - extra {
            Some(Timestamp { secs: self.secs + extra, nanos: self.nanos })
        } else {
            None
        }
    }
}

/// `std::time::SystemTime`: a reading of the system clock, carried through
/// as it is.
#[verifier::external_type_specification]
#[verifier::external_body]
pub struct ExSystemTime(std::time::SystemTime);

/// `std::time::SystemTimeError`: why a reading has no distance from the
/// epoch. Nothing of it is looked at.
#[verifier::external_type_specification]
#[verifier::external_body]
pub struct ExSystemTimeError(std::time::SystemTimeError);

/// `SystemTime::now`: the system clock's reading. Nothing is claimed of it.
#[verifier::external_body]
fn system_now() -> std::time::SystemTime {
    std::time::SystemTime::now()
}

/// `SystemTime::duration_since` with `UNIX_EPOCH`: the time from the epoch to
/// `reading`, handed out as its whole seconds (`Duration::as_secs`) and its
/// fraction in nanoseconds (`Duration::subsec_nanos`), or the error where
/// `reading` lies before the epoch. Claimed is only that the fraction is
/// less than one second.
#[verifier::external_body]
fn since_unix_epoch(reading: &std::time::SystemTime) -> (elapsed: Result<
    (u64, u32),
    std::time::SystemTimeError,
>)
    ensures
        elapsed matches Ok(parts) ==> parts.1 < NANOS_PER_SEC,
{
    match reading.duration_since(std::time::UNIX_EPOCH) {
        Ok(d) => Ok((d.as_secs(), d.subsec_nanos())),
        Err(e) => Err(e),
    }
}

/// The current instant by the system clock; `None` where the clock stands
/// before the epoch.
pub fn get_duration_since_unix_epoch() -> (now: Option<Timestamp>)
    ensures
        now matches Some(t) ==> t.wf(),
{
    let reading = system_now();
    instant_of(since_unix_epoch(&reading))
}

/// What a reading's distance from the epoch is as an instant.
pub open spec fn instant_of_elapsed(
    elapsed: Result<(u64, u32), std::time::SystemTimeError>,
) -> Option<Timestamp> {
    match elapsed {
        Ok(parts) => Some(Timestamp { secs: parts.0, nanos: parts.1 }),
        Err(_) => None,
    }
}

/// The instant that a reading of the clock stands for: the instant of the
/// elapsed whole seconds and fraction where the reading has a distance from
/// the epoch, and `None` where it has none.
pub fn instant_of(elapsed: Result<(u64, u32), std::time::SystemTimeError>) -> (instant: Option<
    Timestamp,
>)
    ensures
        instant == instant_of_elapsed(elapsed),
{
    match elapsed {
        Ok(parts) => Some(Timestamp::new(parts.0, parts.1)),
        Err(_) => None,
    }
}

/// On well-formed instants `precedes` is the order of the elapsed time.
pub proof fn precedes_is_time_order(a: Timestamp, b: Timestamp)
    requires
        a.wf(),
        b.wf(),
    ensures
        a.precedes(b) <==> a.as_nanos() < b.as_nanos(),
{
    assert(a.precedes(b) <==> a.as_nanos() < b.as_nanos()) by (nonlinear_arith)
        requires
            a.nanos < 1_000_000_000,
            b.nanos < 1_000_000_000,
    ;
}

} // verus!

//! UTC instants and their truncation to millisecond precision.

use vstd::prelude::*;
use vstd::arithmetic::div_mod::lemma_fundamental_div_mod_converse;

verus! {

pub const NANOS_PER_SEC: u32 = 1_000_000_000;

pub const NANOS_PER_MILLI: u32 = 1_000_000;

/// The largest instant at or before `t` (nanoseconds since the epoch) that
/// lies on a millisecond boundary.
pub open spec fn trunc_ms(t: int) -> int {
    t - t % 1_000_000
}

/// A UTC instant: whole seconds since the Unix epoch and the nanoseconds
/// into that second.
#[derive(Clone, Copy, Debug, PartialEq, Eq)]
pub struct Timestamp {
    pub secs: i64,
    pub nanos: u32,
}

impl View for Timestamp {
    type V = int;

    /// Nanoseconds since the Unix epoch.
    open spec fn view(&self) -> int {
        self.secs * 1_000_000_000 + self.nanos
    }
}

impl Timestamp {
    /// The nanosecond part stays within its second.
    pub open spec fn wf(&self) -> bool {
        self.nanos < 1_000_000_000
    }

    /// The instant lies on a millisecond boundary.
    pub open spec fn is_ms_truncated(&self) -> bool {
        self.nanos % 1_000_000 == 0
    }

    /// The instant without whatever is finer than a millisecond.
    pub open spec fn truncated(self) -> Timestamp {
        Timestamp { secs: self.secs, nanos: (self.nanos - self.nanos % 1_000_000) as u32 }
    }

    /// Whole milliseconds since the epoch, rounded towards the past.
    pub open spec fn millis(self) -> int {
        self.secs * 1000 + self.nanos / 1_000_000
    }

    /// The instant that lies `millis` milliseconds after the epoch.
    pub open spec fn of_millis(millis: int) -> Timestamp {
        Timestamp { secs: (millis / 1000) as i64, nanos: ((millis % 1000) * 1_000_000) as u32 }
    }

    pub fn new(secs: i64, nanos: u32) -> (t: Timestamp)
        ensures
            t.secs == secs,
            t.nanos == nanos,
    {
        Timestamp { secs, nanos }
    }

    /// Drops whatever is finer than a millisecond.
    pub fn trunc_to_millis(self) -> (t: Timestamp)
        ensures
            t == self.truncated(),
            t.is_ms_truncated(),
            t@ == trunc_ms(self@),
            self.wf() ==> t.wf(),
    {
        let rest: u32 = self.nanos % NANOS_PER_MILLI;
        proof {
            lemma_truncated(self);
        }
        Timestamp { secs: self.secs, nanos: self.nanos - rest }
    }

    /// The instant of a count of milliseconds since the epoch, as the
    /// datastore keeps its timestamps.
    pub fn from_millis(millis: i64) -> (t: Timestamp)
        ensures
            t == Timestamp::of_millis(millis as int),
            t.wf(),
            t.is_ms_truncated(),
            t.millis() == millis,
            t@ == millis * 1_000_000,
    {
        let secs: i64;
        let rest: i64;
        if millis >= 0 {
            secs = millis / 1000;
            rest = millis % 1000;
        } else {
            let back: i64 = -(millis + 1);
            secs = -(back / 1000) - 1;
            rest = 999 - back % 1000;
        }
        proof {
            lemma_fundamental_div_mod_converse(millis as int, 1000, secs as int, rest as int);
            lemma_fundamental_div_mod_converse(rest * 1_000_000, 1_000_000, rest as int, 0);
        }
        Timestamp { secs, nanos: (rest as u32) * NANOS_PER_MILLI }
    }

    /// The count of whole milliseconds since the epoch, where it fits the
    /// datastore's 64 bits.
    pub fn to_millis(&self) -> (millis: Option<i64>)
        ensures
            millis is Some <==> i64::MIN <= self.millis() <= i64::MAX,
            millis is Some ==> millis->0 == self.millis(),
    {
        let wide: i128 = (self.secs as i128) * 1000 + ((self.nanos / NANOS_PER_MILLI) as i128);
        if wide < (i64::MIN as i128) || wide > (i64::MAX as i128) {
            None
        } else {
            Some(wide as i64)
        }
    }

    /// `true` when `self` is not later than `other`.
    pub fn le(&self, other: &Timestamp) -> (b: bool)
        ensures
            b == (self@ <= other@),
    {
        self.nanos_since_epoch() <= other.nanos_since_epoch()
    }

    /// `true` when `self` is strictly earlier than `other`.
    pub fn lt(&self, other: &Timestamp) -> (b: bool)
        ensures
            b == (self@ < other@),
    {
        self.nanos_since_epoch() < other.nanos_since_epoch()
    }

    /// Nanoseconds since the epoch.
    pub fn nanos_since_epoch(&self) -> (n: i128)
        ensures
            n == self@,
    {
        (self.secs as i128) * 1_000_000_000 + (self.nanos as i128)
    }
}

/// The sub-millisecond remainder of an instant is that of its nanosecond part.
pub proof fn lemma_view_mod_milli(t: Timestamp)
    ensures
        t@ % 1_000_000 == t.nanos % 1_000_000,
        t.is_ms_truncated() <==> t@ == trunc_ms(t@),
{
    let q = t.secs * 1000 + t.nanos / 1_000_000;
    let r = t.nanos % 1_000_000;
    assert(t@ == q * 1_000_000 + r) by {
        assert(t.nanos == (t.nanos / 1_000_000) * 1_000_000 + r);
        assert(t.secs * 1_000_000_000 == (t.secs * 1000) * 1_000_000) by (nonlinear_arith);
        assert((t.secs * 1000 + t.nanos / 1_000_000) * 1_000_000 == (t.secs * 1000) * 1_000_000
            + (t.nanos / 1_000_000) * 1_000_000) by (nonlinear_arith);
    }
    lemma_fundamental_div_mod_converse(t@, 1_000_000, q, r as int);
}

/// A truncated instant lies on a millisecond boundary, and is the instant
/// that [`trunc_ms`] gives.
pub proof fn lemma_truncated(t: Timestamp)
    ensures
        t.wf() ==> t.truncated().wf(),
        t.truncated().is_ms_truncated(),
        t.truncated()@ == trunc_ms(t@),
        t.truncated()@ <= t@,
        t.is_ms_truncated() ==> t.truncated() == t,
{
    lemma_view_mod_milli(t);
    let r = t.nanos % 1_000_000;
    let q = t.nanos / 1_000_000;
    assert(t.nanos == q * 1_000_000 + r);
    assert(t.nanos - r == q * 1_000_000);
    lemma_fundamental_div_mod_converse((t.nanos - r) as int, 1_000_000, q as int, 0);
}

/// The count of milliseconds is the instant divided by a millisecond, and
/// an instant on a millisecond boundary is the instant of its count: a
/// truncated timestamp comes back from the datastore as it went.
pub proof fn lemma_millis_round_trip(t: Timestamp)
    ensures
        t.millis() == t@ / 1_000_000,
        t.millis() * 1_000_000 == trunc_ms(t@),
        t.wf() && t.is_ms_truncated() ==> Timestamp::of_millis(t.millis()) == t,
        t.wf() ==> Timestamp::of_millis(t.millis()) == t.truncated(),
{
    let r = t.nanos % 1_000_000;
    let q = t.nanos / 1_000_000;
    assert(t.nanos == q * 1_000_000 + r);
    assert(t@ == t.millis() * 1_000_000 + r) by {
        assert(t.secs * 1_000_000_000 == (t.secs * 1000) * 1_000_000) by (nonlinear_arith);
        assert((t.secs * 1000 + q) * 1_000_000 == (t.secs * 1000) * 1_000_000 + q * 1_000_000)
            by (nonlinear_arith);
    }
    lemma_fundamental_div_mod_converse(t@, 1_000_000, t.millis(), r as int);
    if t.wf() {
        lemma_fundamental_div_mod_converse(t.millis(), 1000, t.secs as int, q as int);
    }
}

/// Truncation never moves an instant forward, and by less than a millisecond.
pub proof fn lemma_trunc_ms_bounds(t: int)
    ensures
        trunc_ms(t) <= t < trunc_ms(t) + 1_000_000,
        trunc_ms(t) % 1_000_000 == 0,
        trunc_ms(trunc_ms(t)) == trunc_ms(t),
{
    let q = t / 1_000_000;
    assert(t == 1_000_000 * q + t % 1_000_000) by {
        vstd::arithmetic::div_mod::lemma_fundamental_div_mod(t, 1_000_000);
    }
    lemma_fundamental_div_mod_converse(trunc_ms(t), 1_000_000, q, 0);
}

/// Truncation keeps the order of instants.
pub proof fn lemma_trunc_ms_monotonic(a: int, b: int)
    requires
        a <= b,
    ensures
        trunc_ms(a) <= trunc_ms(b),
{
    lemma_trunc_ms_bounds(a);
    lemma_trunc_ms_bounds(b);
    let qa = a / 1_000_000;
    let qb = b / 1_000_000;
    vstd::arithmetic::div_mod::lemma_fundamental_div_mod(a, 1_000_000);
    vstd::arithmetic::div_mod::lemma_fundamental_div_mod(b, 1_000_000);
    vstd::arithmetic::div_mod::lemma_div_is_ordered(a, b, 1_000_000);
    assert(1_000_000 * qa <= 1_000_000 * qb) by (nonlinear_arith)
        requires
            qa <= qb,
    ;
}

/// Reads the system clock through `chrono::Utc::now` and hands the instant
/// back as seconds and nanoseconds (`timestamp`, `timestamp_subsec_nanos`).
/// Nothing is claimed of which instant it is: only that its nanosecond part
/// is below one second, as that of the `std::time::Duration` since the epoch
/// which the outside function reads always is. The outside function panics
/// where the system clock stands before the epoch.
#[verifier::external_body]
fn utc_now() -> (t: Timestamp)
    ensures
        t.wf(),
{
    let t = chrono::Utc::now();
    Timestamp { secs: t.timestamp(), nanos: t.timestamp_subsec_nanos() }
}

/// The current instant at millisecond precision.
pub fn now_millis() -> (t: Timestamp)
    ensures
        t.wf(),
        t.is_ms_truncated(),
{
    utc_now().trunc_to_millis()
}

} // verus!

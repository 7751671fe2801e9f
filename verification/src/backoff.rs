//! The per-target backoff record: how long notifications stay suppressed
//! after a failure, and how that quiet period grows while the outage lasts.

use vstd::prelude::*;
use vstd::bytes::{
    lemma_auto_spec_u64_to_from_le_bytes, spec_u64_from_le_bytes, spec_u64_to_le_bytes,
    u64_from_le_bytes, u64_to_le_bytes,
};
use vstd::slice::slice_subrange;
use chrono::Utc;

verus! {

/// Suppression record for one monitored target. No notification may fire
/// before the instant `date`; `time` is the escalation step, in minutes,
/// which grows by one on every suppressed-then-expired failure.
#[derive(Clone, Copy, Debug, PartialEq, Eq, Structural)]
pub struct Backoff {
    /// Next eligible notification instant, in whole seconds since the Unix
    /// epoch.
    pub date: u64,
    /// Escalation step, in minutes; seeded from a target's threshold.
    pub time: u64,
}

impl Backoff {
    /// One more escalation step stays within the timestamp range.
    pub open spec fn advance_fits(self) -> bool {
        self.date + self.time * 60 + 2 <= u64::MAX
    }

    /// The record after one escalation step: the eligible instant moves
    /// forward by `time` minutes plus a two-second pad (so progress is strict
    /// even at step zero), and the step grows by one.
    pub open spec fn spec_advanced(self) -> Backoff {
        Backoff {
            date: (self.date + self.time * 60 + 2) as u64,
            time: (self.time + 1) as u64,
        }
    }

    /// A fresh record at a known instant: eligible immediately, step seeded
    /// with `time` minutes.
    pub fn at_instant(time: u64, now: u64) -> (r: Backoff)
        ensures
            r == (Backoff { date: now, time: time }),
    {
        Backoff { date: now, time }
    }

    /// A fresh record at the current wall-clock instant.
    pub fn with_time(time: u64) -> (r: Backoff)
        ensures
            r.time == time,
    {
        Backoff { date: now_seconds(), time }
    }

    /// The next eligible notification instant, in epoch seconds.
    pub fn get_date(&self) -> (r: u64)
        ensures
            r == self.date,
    {
        self.date
    }

    /// The current escalation step, in minutes.
    pub fn get_time(&self) -> (r: u64)
        ensures
            r == self.time,
    {
        self.time
    }

    /// Advance the record by one escalation step.
    pub fn increment_by_factor(&mut self)
        requires
            old(self).advance_fits(),
        ensures
            *final(self) == old(self).spec_advanced(),
    {
        self.date = self.date + (self.time * 60 + 2);
        self.time = self.time + 1;
    }

    /// The stored byte form of a record: both fields as little-endian
    /// eight-byte words, the eligible instant first.
    pub open spec fn spec_encode(self) -> Seq<u8> {
        spec_u64_to_le_bytes(self.date) + spec_u64_to_le_bytes(self.time)
    }

    /// What a stored byte string decodes to: a record when it is exactly
    /// sixteen bytes, nothing otherwise.
    pub open spec fn spec_decode(s: Seq<u8>) -> Option<Backoff> {
        if s.len() == 16 {
            Some(
                Backoff {
                    date: spec_u64_from_le_bytes(s.subrange(0, 8)),
                    time: spec_u64_from_le_bytes(s.subrange(8, 16)),
                },
            )
        } else {
            None
        }
    }

    /// Serialize the record for the shared store.
    pub fn encode(&self) -> (r: Vec<u8>)
        ensures
            r@ == self.spec_encode(),
    {
        let mut r = u64_to_le_bytes(self.date);
        let mut t = u64_to_le_bytes(self.time);
        r.append(&mut t);
        r
    }

    /// Parse a stored value back into a record; `None` on any malformed
    /// value.
    pub fn decode(bytes: &[u8]) -> (r: Option<Backoff>)
        ensures
            r == Self::spec_decode(bytes@),
    {
        if bytes.len() != 16 {
            return None;
        }
        let date = u64_from_le_bytes(slice_subrange(bytes, 0, 8));
        let time = u64_from_le_bytes(slice_subrange(bytes, 8, 16));
        Some(Backoff { date, time })
    }
}

/// Law: the byte form is round-trippable — decoding an encoded record gives
/// the record back.
pub proof fn lemma_codec_round_trip(b: Backoff)
    ensures
        Backoff::spec_decode(b.spec_encode()) == Some(b),
{
    lemma_auto_spec_u64_to_from_le_bytes();
    let s = b.spec_encode();
    assert(s.subrange(0, 8) =~= spec_u64_to_le_bytes(b.date));
    assert(s.subrange(8, 16) =~= spec_u64_to_le_bytes(b.time));
}

/// Relies on chrono's `Utc::now` and `DateTime::timestamp`: the current
/// instant, in whole seconds since the Unix epoch.
#[verifier::external_body]
fn epoch_now() -> i64 {
    Utc::now().timestamp()
}

/// The current instant as an unsigned epoch-second count; an instant before
/// the epoch clamps to zero.
pub fn now_seconds() -> u64 {
    let raw = epoch_now();
    if raw < 0 {
        0
    } else {
        raw as u64
    }
}

} // verus!

//! Per-target evaluation: classifying a probe result, deriving the stable
//! store key, and the four-phase suppression state machine that decides when
//! a notification is owed and what backoff record to persist.

use vstd::prelude::*;
use vstd::seq_lib::*;
use crate::backoff::Backoff;
use rand::seq::SliceRandom;

verus! {

/// One monitored target and its check parameters; the set of targets is
/// fixed for the process lifetime.
#[derive(Debug, Clone)]
pub struct Entry {
    /// Probe destination, also the target's unique identifier.
    pub url: String,
    /// When `Some(true)`, a success response with an empty, short or
    /// unreadable body is acceptable.
    pub empty: Option<bool>,
    /// When `Some(true)`, alerts for this target carry no audible sound.
    pub dnd: Option<bool>,
    /// Seed for backoff growth, in minutes, and the staleness ceiling.
    pub threshold: u64,
    /// Per-probe request timeout, in milliseconds.
    pub rtimeout: u64,
    /// Seconds between consecutive probes; 60 when absent.
    pub check_interval: Option<u64>,
}

impl Entry {
    /// Whether a short or unreadable body is acceptable for this target.
    pub fn allow_empty(&self) -> (r: bool)
        ensures
            r == (self.empty == Some(true)),
    {
        match self.empty {
            Some(b) => b,
            None => false,
        }
    }

    /// Whether alerts for this target are silent.
    pub fn is_dnd(&self) -> (r: bool)
        ensures
            r == (self.dnd == Some(true)),
    {
        match self.dnd {
            Some(b) => b,
            None => false,
        }
    }

    /// Spacing between consecutive probes, in seconds.
    pub fn poll_interval(&self) -> (r: u64)
        ensures
            r == (match self.check_interval {
                Some(s) => s,
                None => 60u64,
            }),
    {
        match self.check_interval {
            Some(s) => s,
            None => 60,
        }
    }
}

/// The loaded target list.
#[derive(Debug, Clone)]
pub struct Entries {
    /// The monitored targets, in probe order.
    pub domain: Vec<Entry>,
}

/// Relies on rand's `SliceRandom::shuffle` with `rand::rng()`: it permutes
/// the slice in place, keeping exactly the elements it held.
#[verifier::external_body]
fn shuffle_in_place(v: &mut Vec<Entry>)
    ensures
        final(v)@.len() == old(v)@.len(),
        final(v)@.to_multiset() == old(v)@.to_multiset(),
{
    v.shuffle(&mut rand::rng());
}

impl Entries {
    /// Randomize the probe order (a uniform shuffle), so that independent
    /// runs do not correlate the order in which targets are probed. The
    /// targets themselves are unchanged.
    pub fn randomize(&mut self)
        ensures
            final(self).domain@.len() == old(self).domain@.len(),
            final(self).domain@.to_multiset() == old(self).domain@.to_multiset(),
    {
        shuffle_in_place(&mut self.domain);
    }
}

/// What the digest half of a store key is for a given URL: the lowercase
/// hexadecimal MD5 digest of its bytes.
pub uninterp spec fn md5_hex_of(s: Seq<char>) -> Seq<char>;

/// Relies on `md5::compute` and the md5 crate's `LowerHex` impl: the digest
/// is a function of the input bytes alone, rendered as two lowercase hex
/// digits per digest byte — 32 characters in all.
#[verifier::external_body]
fn md5_hex(input: &str) -> (r: String)
    ensures
        r@ == md5_hex_of(input@),
        r@.len() == 32,
{
    format!("{:x}", md5::compute(input))
}

/// The store key for a target URL: a fixed prefix and the URL's digest, so
/// the same target always maps to the same key.
pub open spec fn spec_cache_key(url: Seq<char>) -> Seq<char> {
    "uc-"@ + md5_hex_of(url)
}

/// Derive the store key for a target URL.
pub fn cache_key(url: &str) -> (r: String)
    ensures
        r@ == spec_cache_key(url@),
{
    let mut r = String::from_str("uc-");
    let digest = md5_hex(url);
    r.append(digest.as_str());
    r
}

/// Law: the store key is a function of the URL alone — equal URLs give equal
/// keys, on every tick and across process restarts.
pub proof fn lemma_cache_key_deterministic(u1: Seq<char>, u2: Seq<char>)
    requires
        u1 == u2,
    ensures
        spec_cache_key(u1) == spec_cache_key(u2),
{
}

/// The effective total timeout for one probe, in milliseconds: the target's
/// requested timeout, capped by the system-wide thirty-second maximum.
pub fn effective_timeout_ms(rtimeout: u64) -> (r: u64)
    ensures
        r == (if rtimeout < 30_000 {
            rtimeout
        } else {
            30_000u64
        }),
{
    if rtimeout < 30_000 {
        rtimeout
    } else {
        30_000
    }
}

/// The classified result of one probe.
#[derive(Debug, Clone, Copy, PartialEq, Eq, Structural)]
pub enum ProbeOutcome {
    /// A success status with an acceptable body.
    SuccessHealthy,
    /// A success status whose body was empty, too short, or unreadable.
    SuccessAnomalous,
    /// A response with a non-success status code.
    HttpErrorStatus(u16),
    /// No status was obtained at all (network, name resolution, timeout).
    TransportFailure,
}

/// A success status code, `200..=299`.
pub open spec fn spec_is_success(status: u16) -> bool {
    200 <= status && status < 300
}

/// How a completed probe is classified: non-success statuses are errors; a
/// success status is anomalous when the body was unreadable (`None`) or,
/// unless the target allows empty bodies, shorter than 20 bytes; it is
/// healthy otherwise.
pub open spec fn spec_classify(status: u16, body_len: Option<u64>, allow_empty: bool) -> ProbeOutcome {
    if !spec_is_success(status) {
        ProbeOutcome::HttpErrorStatus(status)
    } else {
        match body_len {
            None => ProbeOutcome::SuccessAnomalous,
            Some(len) => if !allow_empty && len < 20 {
                ProbeOutcome::SuccessAnomalous
            } else {
                ProbeOutcome::SuccessHealthy
            },
        }
    }
}

/// Classify a completed probe from its status code and body length
/// (`None` when the body could not be read).
pub fn classify(status: u16, body_len: Option<u64>, allow_empty: bool) -> (r: ProbeOutcome)
    ensures
        r == spec_classify(status, body_len, allow_empty),
{
    if !(200 <= status && status < 300) {
        ProbeOutcome::HttpErrorStatus(status)
    } else {
        match body_len {
            None => ProbeOutcome::SuccessAnomalous,
            Some(len) => if !allow_empty && len < 20 {
                ProbeOutcome::SuccessAnomalous
            } else {
                ProbeOutcome::SuccessHealthy
            },
        }
    }
}

/// What a tick does with the store and the notifier, before any backoff
/// decision.
#[derive(Debug, Clone, Copy, PartialEq, Eq, Structural)]
pub enum TickAction {
    /// The probe succeeded cleanly: delete any stored record, notify nobody.
    ClearState,
    /// The probe failed: run the suppression decision, reporting this status
    /// code.
    Evaluate(u16),
    /// Nothing to do (an anomalous body on a target that allows one).
    Ignore,
}

/// The action a classified outcome calls for. A healthy success clears the
/// stored record; an anomalous success is ignored when the target allows
/// empty bodies and otherwise evaluated as a synthetic 202; an error status
/// is evaluated as itself; a transport failure is evaluated as a synthetic
/// 500.
pub open spec fn spec_plan_tick(outcome: ProbeOutcome, allow_empty: bool) -> TickAction {
    match outcome {
        ProbeOutcome::SuccessHealthy => TickAction::ClearState,
        ProbeOutcome::SuccessAnomalous => if allow_empty {
            TickAction::Ignore
        } else {
            TickAction::Evaluate(202)
        },
        ProbeOutcome::HttpErrorStatus(code) => TickAction::Evaluate(code),
        ProbeOutcome::TransportFailure => TickAction::Evaluate(500),
    }
}

/// Decide what one classified outcome calls for.
pub fn plan_tick(outcome: &ProbeOutcome, allow_empty: bool) -> (r: TickAction)
    ensures
        r == spec_plan_tick(*outcome, allow_empty),
{
    match outcome {
        ProbeOutcome::SuccessHealthy => TickAction::ClearState,
        ProbeOutcome::SuccessAnomalous => if allow_empty {
            TickAction::Ignore
        } else {
            TickAction::Evaluate(202)
        },
        ProbeOutcome::HttpErrorStatus(code) => TickAction::Evaluate(*code),
        ProbeOutcome::TransportFailure => TickAction::Evaluate(500),
    }
}

/// Where a target stands in the suppression state machine when a failure is
/// being evaluated.
#[derive(Debug, Clone, Copy, PartialEq, Eq, Structural)]
pub enum BackoffPhase {
    /// No stored record: the target had no open outage episode.
    Healthy,
    /// A record exists and its eligible instant has not arrived: notify
    /// nobody, touch nothing.
    Suppressed,
    /// A record exists, its eligible instant has passed, and the outage is
    /// judged to be the same episode: keep escalating it.
    Escalating,
    /// A record exists but went stale — more than `threshold * 60` minutes
    /// elapsed since its eligible instant — so the escalation restarts from
    /// its seed.
    Reset,
}

/// The phase a stored record (or its absence) puts the target in at instant
/// `now`.
pub open spec fn spec_phase(stored: Option<Backoff>, threshold: u64, now: u64) -> BackoffPhase {
    match stored {
        None => BackoffPhase::Healthy,
        Some(b) => if now < b.date {
            BackoffPhase::Suppressed
        } else if (now - b.date) / 60 > threshold * 60 {
            BackoffPhase::Reset
        } else {
            BackoffPhase::Escalating
        },
    }
}

/// Read off the target's suppression phase.
pub fn phase_of(stored: &Option<Backoff>, threshold: u64, now: u64) -> (r: BackoffPhase)
    requires
        threshold * 60 <= u64::MAX,
    ensures
        r == spec_phase(*stored, threshold, now),
{
    match stored {
        None => BackoffPhase::Healthy,
        Some(b) => {
            if now < b.date {
                BackoffPhase::Suppressed
            } else if (now - b.date) / 60 > threshold * 60 {
                BackoffPhase::Reset
            } else {
                BackoffPhase::Escalating
            }
        },
    }
}

/// What a failure evaluation decided: whether a notification is owed, and
/// what to do with the stored record.
#[derive(Debug, Clone, Copy, PartialEq, Eq)]
pub struct FailureEval {
    /// A notification is owed for this failure.
    pub notify: bool,
    /// What to write back to the store.
    pub op: StoreOp,
}

/// The store-side effect of one evaluation.
#[derive(Debug, Clone, Copy, PartialEq, Eq)]
pub enum StoreOp {
    /// Remove the target's record.
    Delete,
    /// Persist this record under the target's key.
    Put(Backoff),
    /// Leave the store untouched.
    Keep,
}

/// The record a failure evaluation escalates: the stored one while the
/// episode continues, a fresh seed at `now` otherwise.
pub open spec fn spec_base_record(stored: Option<Backoff>, threshold: u64, now: u64) -> Backoff {
    match spec_phase(stored, threshold, now) {
        BackoffPhase::Escalating => match stored {
            Some(b) => b,
            None => Backoff { date: now, time: threshold },
        },
        _ => Backoff { date: now, time: threshold },
    }
}

/// The suppression decision for one failing outcome. In the `Suppressed`
/// phase nothing happens at all; in every other phase the base record is
/// advanced one step, persisted, and a notification is owed — so a first
/// failure notifies immediately, and at most one notification is emitted per
/// target within an open suppression window.
pub open spec fn spec_on_failure(stored: Option<Backoff>, threshold: u64, now: u64) -> FailureEval {
    if spec_phase(stored, threshold, now) is Suppressed {
        FailureEval { notify: false, op: StoreOp::Keep }
    } else {
        FailureEval {
            notify: true,
            op: StoreOp::Put(spec_base_record(stored, threshold, now).spec_advanced()),
        }
    }
}

/// Evaluate one failing outcome against the stored record at instant `now`.
pub fn on_failure(stored: Option<Backoff>, threshold: u64, now: u64) -> (r: FailureEval)
    requires
        now + threshold * 60 + 2 <= u64::MAX,
        (stored matches Some(b) ==> b.advance_fits()),
    ensures
        r == spec_on_failure(stored, threshold, now),
{
    let phase = phase_of(&stored, threshold, now);
    match phase {
        BackoffPhase::Suppressed => FailureEval { notify: false, op: StoreOp::Keep },
        BackoffPhase::Escalating => {
            let mut b = match stored {
                Some(b) => b,
                None => Backoff::at_instant(threshold, now),
            };
            b.increment_by_factor();
            FailureEval { notify: true, op: StoreOp::Put(b) }
        },
        _ => {
            let mut b = Backoff::at_instant(threshold, now);
            b.increment_by_factor();
            FailureEval { notify: true, op: StoreOp::Put(b) }
        },
    }
}

/// The stored record after a store operation is applied.
pub open spec fn apply_op(stored: Option<Backoff>, op: StoreOp) -> Option<Backoff> {
    match op {
        StoreOp::Delete => None,
        StoreOp::Put(b) => Some(b),
        StoreOp::Keep => stored,
    }
}

/// What one whole tick decides, given the classified outcome and the stored
/// record: which status code to notify with (if any), and the store effect.
#[derive(Debug, Clone, Copy, PartialEq, Eq)]
pub struct TickEval {
    /// `Some(code)`: notify the operator, reporting this status code.
    pub notify: Option<u16>,
    /// What to write back to the store.
    pub op: StoreOp,
}

/// One whole tick of the per-target state machine: a healthy success deletes
/// the stored record silently, an ignored anomaly does nothing, and a
/// failure follows the suppression decision.
pub open spec fn spec_evaluate(
    outcome: ProbeOutcome,
    allow_empty: bool,
    threshold: u64,
    stored: Option<Backoff>,
    now: u64,
) -> TickEval {
    match spec_plan_tick(outcome, allow_empty) {
        TickAction::ClearState => TickEval { notify: None, op: StoreOp::Delete },
        TickAction::Ignore => TickEval { notify: None, op: StoreOp::Keep },
        TickAction::Evaluate(code) => {
            let e = spec_on_failure(stored, threshold, now);
            TickEval {
                notify: if e.notify {
                    Some(code)
                } else {
                    None
                },
                op: e.op,
            }
        },
    }
}

/// Law: a healthy outcome, followed by another healthy outcome, never
/// notifies and leaves no record in the store.
pub proof fn lemma_healthy_is_quiet(
    stored: Option<Backoff>,
    allow_empty: bool,
    threshold: u64,
    now1: u64,
    now2: u64,
)
    ensures
        ({
            let e1 = spec_evaluate(ProbeOutcome::SuccessHealthy, allow_empty, threshold, stored, now1);
            let s1 = apply_op(stored, e1.op);
            let e2 = spec_evaluate(ProbeOutcome::SuccessHealthy, allow_empty, threshold, s1, now2);
            &&& e1.notify is None
            &&& e2.notify is None
            &&& s1 is None
            &&& apply_op(s1, e2.op) is None
        }),
{
}

/// Law: with no prior record, any single failing outcome notifies, and the
/// persisted record carries step `threshold + 1` and an eligible instant of
/// `now` plus `threshold` minutes plus two seconds.
pub proof fn lemma_first_failure(
    outcome: ProbeOutcome,
    allow_empty: bool,
    threshold: u64,
    now: u64,
)
    requires
        spec_plan_tick(outcome, allow_empty) matches TickAction::Evaluate(_),
        now + threshold * 60 + 2 <= u64::MAX,
    ensures
        ({
            let e = spec_evaluate(outcome, allow_empty, threshold, None, now);
            &&& e.notify is Some
            &&& e.op == StoreOp::Put(
                Backoff {
                    date: (now + threshold * 60 + 2) as u64,
                    time: (threshold + 1) as u64,
                },
            )
        }),
{
}

/// Law: after a first failure, a second failure that arrives while the
/// suppression window is still open notifies nobody and leaves the stored
/// record exactly as it was — one notification total for the two ticks.
pub proof fn lemma_second_failure_suppressed(threshold: u64, now1: u64, now2: u64)
    requires
        now1 + threshold * 60 + 2 <= u64::MAX,
        now2 < now1 + threshold * 60 + 2,
    ensures
        ({
            let e1 = spec_on_failure(None, threshold, now1);
            let s1 = apply_op(None, e1.op);
            let e2 = spec_on_failure(s1, threshold, now2);
            &&& e1.notify
            &&& !e2.notify
            &&& e2.op == StoreOp::Keep
            &&& apply_op(s1, e2.op) == s1
        }),
{
}

/// Law: after a first failure, a second failure that arrives once the
/// window has elapsed, but within the staleness ceiling, notifies again and
/// persists a step exactly one above the first persisted step.
pub proof fn lemma_second_failure_escalates(threshold: u64, now1: u64, now2: u64)
    requires
        now1 + threshold * 60 + 2 <= u64::MAX,
        now2 >= now1 + threshold * 60 + 2,
        (now2 - (now1 + threshold * 60 + 2)) / 60 <= threshold * 60,
        now1 + threshold * 60 + 2 + (threshold + 1) * 60 + 2 <= u64::MAX,
    ensures
        ({
            let e1 = spec_on_failure(None, threshold, now1);
            let b1 = Backoff { date: (now1 + threshold * 60 + 2) as u64, time: (threshold + 1) as u64 };
            let e2 = spec_on_failure(Some(b1), threshold, now2);
            &&& e1.notify
            &&& e1.op == StoreOp::Put(b1)
            &&& e2.notify
            &&& e2.op == StoreOp::Put(b1.spec_advanced())
            &&& b1.spec_advanced().time == b1.time + 1
        }),
{
}

} // verus!

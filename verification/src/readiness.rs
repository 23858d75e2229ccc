//! The readiness gate: polling a health endpoint until it answers with
//! success or a deadline passes.
//!
//! The poll never performs a request or sleeps itself. It is written as two
//! decisions, [`deadline_step`] at the head of each round and
//! [`probe_step`] after each request, which a driver alternates with the
//! real work. [`wait_for_health`] is such a driver for a recorded series of
//! probe results on a clock that only sleeping advances.

use vstd::prelude::*;

verus! {

/// Time the session allows the backend to become healthy, in milliseconds.
pub const DEFAULT_TIMEOUT_MS: u64 = 15000;

/// Pause between two health requests of the session, in milliseconds.
pub const DEFAULT_POLL_INTERVAL_MS: u64 = 150;

/// What one health request came to.
#[derive(Clone, Copy, Debug, PartialEq, Eq, Structural)]
pub enum ProbeOutcome {
    /// The endpoint answered with this HTTP status code.
    Status(u16),
    /// The request itself failed: refused connection, timeout, name lookup.
    TransportError,
}

/// What the driver of the poll has to do next.
#[derive(Clone, Copy, Debug, PartialEq, Eq, Structural)]
pub enum GateStep {
    /// Issue one health request and report its outcome to [`probe_step`].
    Probe,
    /// Sleep this many milliseconds, then consult [`deadline_step`] again.
    Sleep(u64),
    /// Stop polling: the backend is ready (`true`) or the deadline passed
    /// (`false`).
    Finished(bool),
}

/// How a run of the poll ended.
#[derive(Clone, Copy, Debug, PartialEq, Eq, Structural)]
pub enum Verdict {
    /// A probe succeeded before the deadline.
    Ready,
    /// The deadline passed without a successful probe.
    TimedOut,
    /// The recorded probe results ran out before either happened.
    Unsettled,
}

/// The result of running the poll against recorded probe results.
#[derive(Clone, Copy, Debug, PartialEq, Eq, Structural)]
pub struct GateRun {
    pub verdict: Verdict,
    /// Number of health requests that were issued.
    pub probes: usize,
}

/// Whether an HTTP status code belongs to the success class (2xx).
pub open spec fn is_success_status(code: u16) -> bool {
    200 <= code < 300
}

impl ProbeOutcome {
    /// A probe counts as ready exactly when the endpoint answered with a
    /// success status. Every other answer and every transport failure is
    /// "not ready yet"; the causes are not told apart.
    pub open spec fn is_ready(self) -> bool {
        match self {
            ProbeOutcome::Status(code) => is_success_status(code),
            ProbeOutcome::TransportError => false,
        }
    }

    /// Whether this probe shows the backend to be ready.
    pub fn ready(&self) -> (r: bool)
        ensures
            r == self.is_ready(),
    {
        match self {
            ProbeOutcome::Status(code) => status_is_success(*code),
            ProbeOutcome::TransportError => false,
        }
    }
}

/// Asks `reqwest::StatusCode` whether `code` is a success status:
/// `StatusCode::from_u16` followed by `StatusCode::is_success`.
///
/// Trusted: `from_u16` rejects codes outside 100..=999, and `is_success`
/// holds exactly of the codes from 200 to 299.
#[verifier::external_body]
fn status_is_success(code: u16) -> (ok: bool)
    ensures
        ok == is_success_status(code),
{
    match reqwest::StatusCode::from_u16(code) {
        Ok(status) => status.is_success(),
        Err(_) => false,
    }
}

/// The decision at the head of a round: with `elapsed_ms` gone since the
/// gate was started, probe once more or give up.
///
/// A timeout of zero gives up at once, without a single probe.
pub open spec fn deadline_step_spec(timeout_ms: u64, elapsed_ms: u64) -> GateStep {
    if elapsed_ms < timeout_ms {
        GateStep::Probe
    } else {
        GateStep::Finished(false)
    }
}

/// The decision after a probe: finish on success, else sleep one interval.
pub open spec fn probe_step_spec(outcome: ProbeOutcome, interval_ms: u64) -> GateStep {
    if outcome.is_ready() {
        GateStep::Finished(true)
    } else {
        GateStep::Sleep(interval_ms)
    }
}

/// Decides at the head of a round whether another probe is due.
pub fn deadline_step(timeout_ms: u64, elapsed_ms: u64) -> (step: GateStep)
    ensures
        step == deadline_step_spec(timeout_ms, elapsed_ms),
{
    if elapsed_ms < timeout_ms {
        GateStep::Probe
    } else {
        GateStep::Finished(false)
    }
}

/// Decides what follows a probe with the given outcome.
pub fn probe_step(outcome: ProbeOutcome, interval_ms: u64) -> (step: GateStep)
    ensures
        step == probe_step_spec(outcome, interval_ms),
{
    if outcome.ready() {
        GateStep::Finished(true)
    } else {
        GateStep::Sleep(interval_ms)
    }
}

/// On any clock the poll gives up only when the time read at the head of
/// a round has reached the timeout, and always then; the outcome of a
/// probe never makes it give up, and ends it exactly when the probe shows
/// the backend ready.
pub proof fn lemma_gives_up_only_at_deadline(
    timeout_ms: u64,
    elapsed_ms: u64,
    outcome: ProbeOutcome,
    interval_ms: u64,
)
    ensures
        deadline_step_spec(timeout_ms, elapsed_ms) == GateStep::Finished(false) <==> elapsed_ms
            >= timeout_ms,
        deadline_step_spec(timeout_ms, elapsed_ms) == GateStep::Probe <==> elapsed_ms
            < timeout_ms,
        probe_step_spec(outcome, interval_ms) != GateStep::Finished(false),
        probe_step_spec(outcome, interval_ms) == GateStep::Finished(true) <==> outcome.is_ready(),
{
}

/// The run of the poll from the point where `done` probes have failed, on a
/// clock that stands at `done * interval`: probes take no time and every
/// sleep lasts exactly one interval.
pub open spec fn gate_run_from(
    timeout: nat,
    interval: nat,
    samples: Seq<ProbeOutcome>,
    done: nat,
) -> (Verdict, nat)
    decreases samples.len() - done,
{
    if done * interval >= timeout {
        (Verdict::TimedOut, done)
    } else if done >= samples.len() {
        (Verdict::Unsettled, done)
    } else if samples[done as int].is_ready() {
        (Verdict::Ready, done + 1)
    } else {
        gate_run_from(timeout, interval, samples, done + 1)
    }
}

/// The whole run of the poll against `samples`: the verdict and the number
/// of probes issued.
pub open spec fn gate_run(timeout: nat, interval: nat, samples: Seq<ProbeOutcome>) -> (
    Verdict,
    nat,
) {
    gate_run_from(timeout, interval, samples, 0)
}

/// No probe before index `n` shows the backend ready.
pub open spec fn quiet_before(samples: Seq<ProbeOutcome>, n: int) -> bool {
    forall|j: int| 0 <= j < n && j < samples.len() ==> !(#[trigger] samples[j]).is_ready()
}

proof fn lemma_next_tick(done: nat, interval: nat)
    ensures
        (done + 1) * interval == done * interval + interval,
{
    assert((done + 1) * interval == done * interval + interval) by (nonlinear_arith);
}

proof fn lemma_ticks_monotone(a: nat, b: nat, interval: nat)
    requires
        a <= b,
    ensures
        a * interval <= b * interval,
{
    assert(a * interval <= b * interval) by (nonlinear_arith)
        requires
            a <= b,
    ;
}

/// What each verdict of a run from `done` says of the samples and the
/// clock: `Ready` names a successful probe issued before the deadline,
/// `TimedOut` a round that starts at or after the deadline while the round
/// before it, if the run made one, started before it, `Unsettled` that the
/// samples ran out before the deadline. In every case no probe before the
/// last one issued was successful.
pub proof fn lemma_run_shape(timeout: nat, interval: nat, samples: Seq<ProbeOutcome>, done: nat)
    ensures
        ({
            let (verdict, probes) = gate_run_from(timeout, interval, samples, done);
            &&& done <= probes
            &&& verdict == Verdict::Ready ==> {
                &&& done < probes <= samples.len()
                &&& samples[probes - 1].is_ready()
                &&& (probes - 1) * interval < timeout
            }
            &&& verdict == Verdict::TimedOut ==> {
                &&& probes * interval >= timeout
                &&& probes > done ==> (probes - 1) * interval < timeout
            }
            &&& verdict == Verdict::Unsettled ==> {
                &&& probes >= samples.len()
                &&& probes * interval < timeout
            }
            &&& forall|j: int|
                done <= j < probes && j < samples.len() && !(verdict == Verdict::Ready && j
                    == probes - 1) ==> !(#[trigger] samples[j]).is_ready()
        }),
    decreases samples.len() - done,
{
    if done * interval >= timeout {
    } else if done >= samples.len() {
    } else if samples[done as int].is_ready() {
    } else {
        lemma_run_shape(timeout, interval, samples, done + 1);
    }
}

/// While the backend never answers with success the poll is never reported
/// ready, and when it gives up, the clock stands no earlier than the
/// timeout and no later than one interval after it. It does give up once
/// the samples reach to the deadline.
pub proof fn lemma_never_ready_times_out(timeout: nat, interval: nat, samples: Seq<ProbeOutcome>)
    requires
        quiet_before(samples, samples.len() as int),
    ensures
        ({
            let (verdict, probes) = gate_run(timeout, interval, samples);
            &&& verdict != Verdict::Ready
            &&& verdict == Verdict::TimedOut ==> timeout <= probes * interval <= timeout
                + interval
            &&& samples.len() * interval >= timeout ==> verdict == Verdict::TimedOut
        }),
{
    let (verdict, probes) = gate_run(timeout, interval, samples);
    lemma_run_shape(timeout, interval, samples, 0);
    if verdict == Verdict::TimedOut && probes > 0 {
        lemma_next_tick((probes - 1) as nat, interval);
    }
    if verdict == Verdict::Unsettled {
        lemma_ticks_monotone(samples.len(), probes, interval);
    }
}

/// When the probe number `n` (counted from zero) is the first successful
/// one and is issued before the deadline, the poll reports ready with that
/// probe: after `n + 1` probes and `n` sleeps, that is `n * interval` after
/// the first probe started.
pub proof fn lemma_first_success_is_reported(
    timeout: nat,
    interval: nat,
    samples: Seq<ProbeOutcome>,
    n: nat,
)
    requires
        n < samples.len(),
        samples[n as int].is_ready(),
        quiet_before(samples, n as int),
        n * interval < timeout,
    ensures
        gate_run(timeout, interval, samples) == (Verdict::Ready, n + 1),
{
    lemma_reaches_first_success(timeout, interval, samples, n, 0);
}

proof fn lemma_reaches_first_success(
    timeout: nat,
    interval: nat,
    samples: Seq<ProbeOutcome>,
    n: nat,
    done: nat,
)
    requires
        done <= n < samples.len(),
        samples[n as int].is_ready(),
        quiet_before(samples, n as int),
        n * interval < timeout,
    ensures
        gate_run_from(timeout, interval, samples, done) == (Verdict::Ready, n + 1),
    decreases n - done,
{
    lemma_ticks_monotone(done, n, interval);
    if done < n {
        assert(!samples[done as int].is_ready());
        lemma_reaches_first_success(timeout, interval, samples, n, done + 1);
    }
}

/// A timeout of zero ends the run at once, without a probe.
pub proof fn lemma_zero_timeout_never_probes(interval: nat, samples: Seq<ProbeOutcome>)
    ensures
        gate_run(0, interval, samples) == (Verdict::TimedOut, 0nat),
{
    assert(0 * interval == 0) by (nonlinear_arith);
}

/// Runs the poll against recorded probe results.
///
/// `samples[i]` is what the probe number `i` returns. The clock starts at
/// zero, a probe takes no time and a sleep exactly `interval_ms`, so the
/// probe number `i` is issued at `i * interval_ms`. The run ends `Ready`
/// with the first successful probe that is issued before `timeout_ms`,
/// `TimedOut` at the first round that starts at or after `timeout_ms`, and
/// `Unsettled` if the samples are used up before that.
pub fn wait_for_health(timeout_ms: u64, interval_ms: u64, samples: &Vec<ProbeOutcome>) -> (run:
    GateRun)
    ensures
        (run.verdict, run.probes as nat) == gate_run(
            timeout_ms as nat,
            interval_ms as nat,
            samples@,
        ),
{
    let mut elapsed: u64 = 0;
    let mut issued: usize = 0;
    loop
        invariant
            issued <= samples.len(),
            elapsed as nat == (issued as nat) * (interval_ms as nat),
            gate_run(timeout_ms as nat, interval_ms as nat, samples@) == gate_run_from(
                timeout_ms as nat,
                interval_ms as nat,
                samples@,
                issued as nat,
            ),
        decreases samples.len() - issued,
    {
        if deadline_step(timeout_ms, elapsed) != GateStep::Probe {
            return GateRun { verdict: Verdict::TimedOut, probes: issued };
        }
        if issued >= samples.len() {
            return GateRun { verdict: Verdict::Unsettled, probes: issued };
        }
        let step = probe_step(samples[issued], interval_ms);
        issued = issued + 1;
        proof {
            lemma_next_tick((issued - 1) as nat, interval_ms as nat);
        }
        match step {
            GateStep::Sleep(pause) => {
                match elapsed.checked_add(pause) {
                    Some(later) => {
                        elapsed = later;
                    },
                    None => {
                        assert((issued as nat) * (interval_ms as nat) > u64::MAX);
                        assert(gate_run_from(
                            timeout_ms as nat,
                            interval_ms as nat,
                            samples@,
                            (issued - 1) as nat,
                        ) == gate_run_from(
                            timeout_ms as nat,
                            interval_ms as nat,
                            samples@,
                            issued as nat,
                        ));
                        return GateRun { verdict: Verdict::TimedOut, probes: issued };
                    },
                }
            },
            _ => {
                return GateRun { verdict: Verdict::Ready, probes: issued };
            },
        }
    }
}

} // verus!

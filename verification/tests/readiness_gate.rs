use ndm_desktop::readiness::{
    deadline_step, probe_step, wait_for_health, GateRun, GateStep, ProbeOutcome, Verdict,
    DEFAULT_POLL_INTERVAL_MS, DEFAULT_TIMEOUT_MS,
};

fn failing(count: usize) -> Vec<ProbeOutcome> {
    let mut samples = Vec::new();
    for i in 0..count {
        if i % 2 == 0 {
            samples.push(ProbeOutcome::Status(503));
        } else {
            samples.push(ProbeOutcome::TransportError);
        }
    }
    samples
}

#[test]
fn success_statuses_are_exactly_the_2xx_class() {
    assert!(ProbeOutcome::Status(200).ready());
    assert!(ProbeOutcome::Status(204).ready());
    assert!(ProbeOutcome::Status(299).ready());
    assert!(!ProbeOutcome::Status(199).ready());
    assert!(!ProbeOutcome::Status(300).ready());
    assert!(!ProbeOutcome::Status(404).ready());
    assert!(!ProbeOutcome::Status(500).ready());
    assert!(!ProbeOutcome::Status(100).ready());
}

#[test]
fn codes_that_are_no_status_are_not_ready() {
    assert!(!ProbeOutcome::Status(0).ready());
    assert!(!ProbeOutcome::Status(99).ready());
    assert!(!ProbeOutcome::Status(1000).ready());
    assert!(!ProbeOutcome::Status(u16::MAX).ready());
}

#[test]
fn every_success_status_is_ready_and_no_other() {
    for code in 0..=u16::MAX {
        assert_eq!(ProbeOutcome::Status(code).ready(), (200..300).contains(&code));
    }
}

#[test]
fn transport_error_is_not_ready() {
    assert!(!ProbeOutcome::TransportError.ready());
}

#[test]
fn defaults_are_fifteen_seconds_and_150_ms() {
    assert_eq!(DEFAULT_TIMEOUT_MS, 15000);
    assert_eq!(DEFAULT_POLL_INTERVAL_MS, 150);
}

#[test]
fn deadline_step_probes_before_the_timeout_only() {
    assert_eq!(deadline_step(15000, 0), GateStep::Probe);
    assert_eq!(deadline_step(15000, 14999), GateStep::Probe);
    assert_eq!(deadline_step(15000, 15000), GateStep::Finished(false));
    assert_eq!(deadline_step(15000, 20000), GateStep::Finished(false));
    assert_eq!(deadline_step(0, 0), GateStep::Finished(false));
}

#[test]
fn probe_step_finishes_on_success_and_sleeps_otherwise() {
    assert_eq!(probe_step(ProbeOutcome::Status(200), 150), GateStep::Finished(true));
    assert_eq!(probe_step(ProbeOutcome::Status(503), 150), GateStep::Sleep(150));
    assert_eq!(probe_step(ProbeOutcome::TransportError, 7), GateStep::Sleep(7));
}

#[test]
fn never_healthy_times_out_between_timeout_and_one_interval_later() {
    let run = wait_for_health(15000, 150, &failing(500));
    assert_eq!(run, GateRun { verdict: Verdict::TimedOut, probes: 100 });
    let returned_at = run.probes as u64 * 150;
    assert_eq!(returned_at, 15000);

    let run = wait_for_health(1000, 300, &failing(500));
    assert_eq!(run, GateRun { verdict: Verdict::TimedOut, probes: 4 });
    let returned_at = run.probes as u64 * 300;
    assert!(1000 <= returned_at && returned_at <= 1000 + 300);
}

#[test]
fn success_on_the_nth_probe_is_reported_after_n_minus_one_sleeps() {
    let mut samples = failing(4);
    samples.push(ProbeOutcome::Status(200));
    samples.push(ProbeOutcome::Status(200));
    let run = wait_for_health(15000, 150, &samples);
    assert_eq!(run, GateRun { verdict: Verdict::Ready, probes: 5 });
    assert_eq!((run.probes as u64 - 1) * 150, 600);
}

#[test]
fn success_on_the_first_probe_needs_no_sleep() {
    let run = wait_for_health(15000, 150, &vec![ProbeOutcome::Status(200)]);
    assert_eq!(run, GateRun { verdict: Verdict::Ready, probes: 1 });
}

#[test]
fn late_success_after_sixteen_seconds_is_a_timeout() {
    // Probes at 0, 150, ..., 15900 ms fail; the backend is healthy from 16 s on.
    let mut samples = failing(107);
    for _ in 0..50 {
        samples.push(ProbeOutcome::Status(200));
    }
    let run = wait_for_health(15000, 150, &samples);
    assert_eq!(run.verdict, Verdict::TimedOut);
    assert_eq!(run.probes, 100);
}

#[test]
fn success_exactly_at_the_deadline_is_not_seen() {
    let mut samples = failing(100);
    samples.push(ProbeOutcome::Status(200));
    let run = wait_for_health(15000, 150, &samples);
    assert_eq!(run, GateRun { verdict: Verdict::TimedOut, probes: 100 });

    let mut samples = failing(99);
    samples.push(ProbeOutcome::Status(200));
    let run = wait_for_health(15000, 150, &samples);
    assert_eq!(run, GateRun { verdict: Verdict::Ready, probes: 100 });
}

#[test]
fn zero_timeout_gives_up_without_a_probe() {
    let run = wait_for_health(0, 150, &vec![ProbeOutcome::Status(200)]);
    assert_eq!(run, GateRun { verdict: Verdict::TimedOut, probes: 0 });
    let run = wait_for_health(0, 0, &Vec::new());
    assert_eq!(run, GateRun { verdict: Verdict::TimedOut, probes: 0 });
}

#[test]
fn samples_that_run_out_leave_the_run_unsettled() {
    let run = wait_for_health(15000, 150, &failing(10));
    assert_eq!(run, GateRun { verdict: Verdict::Unsettled, probes: 10 });
    let run = wait_for_health(1, 150, &Vec::new());
    assert_eq!(run, GateRun { verdict: Verdict::Unsettled, probes: 0 });
}

#[test]
fn zero_interval_never_reaches_the_deadline() {
    let run = wait_for_health(1, 0, &failing(1000));
    assert_eq!(run, GateRun { verdict: Verdict::Unsettled, probes: 1000 });
}

#[test]
fn intervals_near_the_largest_value_do_not_wrap() {
    let run = wait_for_health(u64::MAX, u64::MAX, &failing(5));
    assert_eq!(run, GateRun { verdict: Verdict::TimedOut, probes: 1 });
    let run = wait_for_health(u64::MAX, u64::MAX - 1, &failing(5));
    assert_eq!(run, GateRun { verdict: Verdict::TimedOut, probes: 2 });
    let mut samples = failing(1);
    samples.push(ProbeOutcome::Status(201));
    let run = wait_for_health(u64::MAX, u64::MAX - 1, &samples);
    assert_eq!(run, GateRun { verdict: Verdict::Ready, probes: 2 });
}

#[test]
fn a_probe_never_ends_the_wait_with_failure() {
    for code in [0u16, 100, 199, 200, 250, 299, 300, 404, 503, 999, 1000] {
        let step = probe_step(ProbeOutcome::Status(code), 150);
        assert_ne!(step, GateStep::Finished(false));
        assert_eq!(step == GateStep::Finished(true), (200..300).contains(&code));
    }
}

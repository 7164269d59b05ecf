use laundry_monitor::appliance::{Appliance, IdleProgress, PollReport, Transition};
use laundry_monitor::time::{Duration, Instant};

fn at(secs: u64) -> Instant {
    Instant::from_micros(secs * 1_000_000)
}

fn washer() -> Appliance {
    Appliance::new("Washer", "washer", Duration::from_secs(30), at(0))
}

#[test]
fn new_appliance_keeps_its_configuration() {
    let a = washer();
    assert_eq!(a.name, "Washer");
    assert_eq!(a.topic, "washer");
    assert_eq!(a.idle_timeout, Duration::from_secs(30));
}

#[test]
fn no_alert_without_vibration() {
    let mut a = washer();
    for t in [1, 10, 30, 31, 100, 1000] {
        let r = a.poll(false, at(t));
        assert_eq!(r, PollReport {
            transition: None,
            new_cycle_after_completion: false,
            idle_progress: None,
            notify: false,
        });
    }
}

#[test]
fn transitions_are_reported_on_change_only() {
    let mut a = washer();
    assert_eq!(a.poll(true, at(1)).transition, Some(Transition::Vibrating));
    assert_eq!(a.poll(true, at(2)).transition, None);
    assert_eq!(a.poll(false, at(3)).transition, Some(Transition::Still));
    assert_eq!(a.poll(false, at(4)).transition, None);
    assert_eq!(a.poll(true, at(5)).transition, Some(Transition::Vibrating));
}

#[test]
fn alert_once_still_for_idle_timeout() {
    let mut a = washer();
    a.poll(true, at(5));
    assert!(!a.poll(false, at(6)).notify);
    assert!(!a.poll(false, at(34)).notify);
    // 30 s after the last vibration exactly.
    assert!(a.poll(false, at(35)).notify);
}

#[test]
fn one_alert_per_cycle() {
    let mut a = washer();
    a.poll(true, at(1));
    let mut count = 0;
    for t in 2..200 {
        if a.poll(false, at(t)).notify {
            count += 1;
        }
    }
    assert_eq!(count, 1);
}

#[test]
fn new_cycle_after_completion_notifies_again() {
    let mut a = washer();
    a.poll(true, at(1));
    assert!(a.poll(false, at(31)).notify);
    let r = a.poll(true, at(100));
    assert!(r.new_cycle_after_completion);
    assert_eq!(r.transition, Some(Transition::Vibrating));
    assert!(!r.notify);
    assert!(!a.poll(false, at(129)).notify);
    assert!(a.poll(false, at(130)).notify);
}

#[test]
fn new_cycle_flag_only_after_a_completed_cycle() {
    let mut a = washer();
    assert!(!a.poll(true, at(1)).new_cycle_after_completion);
    assert!(!a.poll(true, at(2)).new_cycle_after_completion);
}

#[test]
fn vibration_during_countdown_restarts_it() {
    let mut a = washer();
    a.poll(true, at(1));
    a.poll(false, at(20));
    a.poll(true, at(25));
    assert!(!a.poll(false, at(40)).notify);
    assert!(a.poll(false, at(55)).notify);
}

#[test]
fn heartbeat_every_ten_seconds_during_countdown() {
    let mut a = washer();
    a.poll(true, at(0));
    assert_eq!(a.poll(false, at(5)).idle_progress, None);
    assert_eq!(
        a.poll(false, at(10)).idle_progress,
        Some(IdleProgress { elapsed_secs: 10, timeout_secs: 30 })
    );
    assert_eq!(a.poll(false, at(19)).idle_progress, None);
    assert_eq!(
        a.poll(false, at(20)).idle_progress,
        Some(IdleProgress { elapsed_secs: 20, timeout_secs: 30 })
    );
    // The heartbeat of the completing poll comes with the alert.
    let r = a.poll(false, at(30));
    assert_eq!(r.idle_progress, Some(IdleProgress { elapsed_secs: 30, timeout_secs: 30 }));
    assert!(r.notify);
    // After the alert, no more heartbeats.
    assert_eq!(a.poll(false, at(40)).idle_progress, None);
    assert_eq!(a.poll(false, at(100)).idle_progress, None);
}

#[test]
fn heartbeat_counts_from_creation_before_any_vibration_is_none() {
    let mut a = washer();
    assert_eq!(a.poll(false, at(50)).idle_progress, None);
}

#[test]
fn zero_timeout_notifies_on_the_vibration_itself() {
    let mut a = Appliance::new("Dryer", "dryer", Duration::from_secs(0), at(0));
    let r = a.poll(true, at(3));
    assert!(r.notify);
    assert!(!a.poll(false, at(4)).notify);
}

#[test]
fn elapsed_is_measured_across_timer_wrap() {
    let start = Instant::from_micros(u64::MAX - 1_000_000);
    let mut a = Appliance::new("Washer", "washer", Duration::from_secs(30), start);
    a.poll(true, start);
    assert!(!a.poll(false, Instant::from_micros(28_000_000)).notify);
    assert!(a.poll(false, Instant::from_micros(29_000_000)).notify);
}

/// Replays a run of polls and checks each notification against the run
/// law: notify exactly when the last HIGH poll is at least the idle timeout
/// back and nothing was notified since it.
#[test]
fn notifications_follow_the_run_law() {
    let timeout = 30u64;
    let mut a = Appliance::new("Dryer", "dryer", Duration::from_secs(timeout), at(0));
    let readings: [(bool, u64); 16] = [
        (false, 1), (true, 2), (false, 10), (false, 31), (false, 32), (false, 33),
        (true, 40), (true, 41), (false, 60), (false, 71), (false, 72), (true, 80),
        (false, 100), (false, 109), (false, 110), (false, 200),
    ];
    let mut last_high: Option<u64> = None;
    let mut notified_since_high = false;
    let mut last_idle_ref: Option<u64> = None;
    for (h, t) in readings {
        let r = a.poll(h, at(t));
        if h {
            last_high = Some(t);
            notified_since_high = false;
            last_idle_ref = Some(t);
        }
        let expected = match last_high {
            Some(l) => !notified_since_high && t - l >= timeout,
            None => false,
        };
        assert_eq!(r.notify, expected, "poll at {}", t);
        let expected_idle = match (last_high, last_idle_ref) {
            (Some(l), Some(hb)) if !h && !notified_since_high && t - hb >= 10 => {
                Some(IdleProgress { elapsed_secs: t - l, timeout_secs: timeout })
            }
            _ => None,
        };
        assert_eq!(r.idle_progress, expected_idle, "poll at {}", t);
        if r.idle_progress.is_some() {
            last_idle_ref = Some(t);
        }
        if r.notify {
            notified_since_high = true;
        }
    }
}

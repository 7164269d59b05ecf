//! Per-appliance state machine: from sensor readings to log events and the
//! decision to notify that a cycle is complete.
use vstd::prelude::*;

use crate::time::{elapsed_micros, Duration, Instant, MICROS_PER_SEC};

verus! {

/// How often, in microseconds, an idle progress message is due while the
/// appliance counts down to its idle timeout.
pub const HEARTBEAT_MICROS: u64 = 10_000_000;

/// A change of the sensor's reading since the previous poll.
#[derive(Clone, Copy, Debug, PartialEq, Eq, Structural)]
pub enum Transition {
    /// The sensor went from LOW to HIGH.
    Vibrating,
    /// The sensor went from HIGH to LOW.
    Still,
}

/// Progress of the idle countdown, in whole seconds.
#[derive(Clone, Copy, Debug, PartialEq, Eq, Structural)]
pub struct IdleProgress {
    /// Seconds since the last vibration.
    pub elapsed_secs: u64,
    /// The idle timeout, in seconds.
    pub timeout_secs: u64,
}

/// What one poll decided: the messages due and whether to notify.
#[derive(Clone, Copy, Debug, PartialEq, Eq, Structural)]
pub struct PollReport {
    /// The sensor changed state since the previous poll.
    pub transition: Option<Transition>,
    /// A vibration came after the previous cycle's notification.
    pub new_cycle_after_completion: bool,
    /// An idle progress message is due.
    pub idle_progress: Option<IdleProgress>,
    /// The cycle is complete: send the notification now.
    pub notify: bool,
}

/// The state of an appliance's monitor, times in microseconds since boot.
pub struct ApplianceView {
    pub name: Seq<char>,
    pub topic: Seq<char>,
    pub idle_timeout: u64,
    pub last_vibration: Option<u64>,
    pub alert_sent: bool,
    pub prev_is_high: bool,
    pub last_heartbeat: u64,
}

impl ApplianceView {
    /// A notification is only ever recorded for a cycle that began with a
    /// vibration.
    pub open spec fn wf(self) -> bool {
        self.alert_sent ==> self.last_vibration is Some
    }

    /// Whether the notification was already sent, once the reading is taken in.
    pub open spec fn alert_before(self, is_high: bool) -> bool {
        if is_high {
            false
        } else {
            self.alert_sent
        }
    }

    /// The last vibration, once the reading is taken in.
    pub open spec fn vibration_at(self, is_high: bool, now: u64) -> Option<u64> {
        if is_high {
            Some(now)
        } else {
            self.last_vibration
        }
    }

    /// The heartbeat instant, once the reading is taken in.
    pub open spec fn heartbeat_before(self, is_high: bool, now: u64) -> u64 {
        if is_high {
            now
        } else {
            self.last_heartbeat
        }
    }

    /// An idle progress message is due.
    pub open spec fn heartbeat_due(self, is_high: bool, now: u64) -> bool {
        &&& self.vibration_at(is_high, now) is Some
        &&& !self.alert_before(is_high)
        &&& elapsed_micros(self.heartbeat_before(is_high, now), now) >= HEARTBEAT_MICROS
    }

    /// The appliance has been still for its idle timeout and has not yet
    /// notified for this cycle.
    pub open spec fn notify_due(self, is_high: bool, now: u64) -> bool {
        &&& self.vibration_at(is_high, now) is Some
        &&& !self.alert_before(is_high)
        &&& elapsed_micros(self.vibration_at(is_high, now)->0, now) >= self.idle_timeout
    }

    /// The state after a poll with sensor reading `is_high` at time `now`.
    pub open spec fn next(self, is_high: bool, now: u64) -> ApplianceView {
        ApplianceView {
            last_vibration: self.vibration_at(is_high, now),
            alert_sent: self.alert_before(is_high) || self.notify_due(is_high, now),
            prev_is_high: is_high,
            last_heartbeat: if self.heartbeat_due(is_high, now) {
                now
            } else {
                self.heartbeat_before(is_high, now)
            },
            ..self
        }
    }

    /// What a poll with sensor reading `is_high` at time `now` reports.
    pub open spec fn report(self, is_high: bool, now: u64) -> PollReport {
        PollReport {
            transition: if is_high && !self.prev_is_high {
                Some(Transition::Vibrating)
            } else if !is_high && self.prev_is_high {
                Some(Transition::Still)
            } else {
                None
            },
            new_cycle_after_completion: is_high && self.alert_sent,
            idle_progress: if self.heartbeat_due(is_high, now) {
                Some(
                    IdleProgress {
                        elapsed_secs: (elapsed_micros(self.vibration_at(is_high, now)->0, now)
                            / MICROS_PER_SEC) as u64,
                        timeout_secs: (self.idle_timeout / MICROS_PER_SEC) as u64,
                    },
                )
            } else {
                None
            },
            notify: self.notify_due(is_high, now),
        }
    }
}

/// Tracks the vibration state and notification lifecycle for a single appliance.
///
/// Each appliance has its own topic, idle timeout, and independent state.
/// Call `poll()` on every iteration of the main loop with the current sensor
/// reading and the current time; it says what to log and when to notify.
pub struct Appliance {
    /// Human-readable label used in log messages (e.g. "Washer", "Dryer").
    pub name: &'static str,
    /// ntfy topic to POST to when this appliance's cycle completes.
    pub topic: &'static str,
    /// How long the sensor must remain still before the cycle is considered done.
    pub idle_timeout: Duration,
    /// Timestamp of the most recent HIGH reading from the sensor.
    last_vibration: Option<Instant>,
    /// True once a notification has been sent for the current cycle.
    alert_sent: bool,
    /// Sensor state on the previous poll, used to detect transitions.
    prev_is_high: bool,
    /// Timestamp used to throttle idle progress messages.
    last_heartbeat: Instant,
}

impl View for Appliance {
    type V = ApplianceView;

    closed spec fn view(&self) -> ApplianceView {
        ApplianceView {
            name: self.name@,
            topic: self.topic@,
            idle_timeout: self.idle_timeout.micros,
            last_vibration: match self.last_vibration {
                Some(i) => Some(i.micros),
                None => None,
            },
            alert_sent: self.alert_sent,
            prev_is_high: self.prev_is_high,
            last_heartbeat: self.last_heartbeat.micros,
        }
    }
}

impl Appliance {
    /// A monitor that has seen no vibration yet, created at time `now`.
    pub fn new(name: &'static str, topic: &'static str, idle_timeout: Duration, now: Instant) -> (a:
        Self)
        ensures
            a@ == (ApplianceView {
                name: name@,
                topic: topic@,
                idle_timeout: idle_timeout.micros,
                last_vibration: None,
                alert_sent: false,
                prev_is_high: false,
                last_heartbeat: now.micros,
            }),
            a@.wf(),
    {
        Appliance {
            name,
            topic,
            idle_timeout,
            last_vibration: None,
            alert_sent: false,
            prev_is_high: false,
            last_heartbeat: now,
        }
    }

    /// Called on every main loop iteration with the current sensor pin state
    /// and the current time.
    ///
    /// Reports state transitions, idle countdown heartbeats, and decides to
    /// notify once the appliance has been still for `idle_timeout`.
    pub fn poll(&mut self, is_high: bool, now: Instant) -> (report: PollReport)
        ensures
            final(self)@ == old(self)@.next(is_high, now.micros),
            report == old(self)@.report(is_high, now.micros),
    {
        let transition = if is_high && !self.prev_is_high {
            Some(Transition::Vibrating)
        } else if !is_high && self.prev_is_high {
            Some(Transition::Still)
        } else {
            None
        };
        self.prev_is_high = is_high;

        let mut new_cycle_after_completion = false;
        if is_high {
            self.last_vibration = Some(now);
            self.last_heartbeat = now;
            new_cycle_after_completion = self.alert_sent;
            // A new cycle can trigger a fresh notification.
            self.alert_sent = false;
        }
        let mut idle_progress = None;
        let mut notify = false;
        if let Some(last) = self.last_vibration {
            let elapsed = now.duration_since(last);
            if !self.alert_sent && now.duration_since(self.last_heartbeat).as_micros()
                >= HEARTBEAT_MICROS {
                idle_progress = Some(
                    IdleProgress {
                        elapsed_secs: elapsed.as_secs(),
                        timeout_secs: self.idle_timeout.as_secs(),
                    },
                );
                self.last_heartbeat = now;
            }
            if !self.alert_sent && elapsed.as_micros() >= self.idle_timeout.as_micros() {
                notify = true;
                self.alert_sent = true;
            }
        }
        PollReport { transition, new_cycle_after_completion, idle_progress, notify }
    }
}


/// The state after polls with the given `(reading, time)` inputs, in order.
pub open spec fn run(s: ApplianceView, inputs: Seq<(bool, u64)>) -> ApplianceView
    decreases inputs.len(),
{
    if inputs.len() == 0 {
        s
    } else {
        run(s.next(inputs[0].0, inputs[0].1), inputs.drop_first())
    }
}

/// How many of the polls with the given inputs decide to notify.
pub open spec fn notifications(s: ApplianceView, inputs: Seq<(bool, u64)>) -> nat
    decreases inputs.len(),
{
    if inputs.len() == 0 {
        0
    } else {
        (if s.report(inputs[0].0, inputs[0].1).notify {
            1nat
        } else {
            0nat
        }) + notifications(s.next(inputs[0].0, inputs[0].1), inputs.drop_first())
    }
}

/// No input reads the sensor HIGH.
pub open spec fn all_still(inputs: Seq<(bool, u64)>) -> bool {
    forall|i: int| 0 <= i < inputs.len() ==> !(#[trigger] inputs[i]).0
}

/// Every poll keeps the monitor well formed: a notification is only ever
/// recorded for a cycle that began with a vibration.
pub proof fn law_poll_keeps_wf(s: ApplianceView, is_high: bool, now: u64)
    requires
        s.wf(),
    ensures
        s.next(is_high, now).wf(),
{
}

/// Once the notification of a cycle is sent, no further one is sent until
/// the sensor vibrates again.
pub proof fn law_silent_after_alert_until_vibration(s: ApplianceView, inputs: Seq<(bool, u64)>)
    requires
        s.alert_sent,
        all_still(inputs),
    ensures
        notifications(s, inputs) == 0,
        run(s, inputs).alert_sent,
    decreases inputs.len(),
{
    if inputs.len() > 0 {
        assert(!inputs[0].0);
        assert(all_still(inputs.drop_first())) by {
            assert forall|i: int| 0 <= i < inputs.drop_first().len() implies !(
            #[trigger] inputs.drop_first()[i]).0 by {
                assert(inputs.drop_first()[i] == inputs[i + 1]);
            }
        }
        law_silent_after_alert_until_vibration(s.next(inputs[0].0, inputs[0].1), inputs.drop_first());
    }
}

/// While the sensor stays still, at most one notification is sent: one
/// alert per cycle.
pub proof fn law_at_most_one_alert_per_cycle(s: ApplianceView, inputs: Seq<(bool, u64)>)
    requires
        all_still(inputs),
    ensures
        notifications(s, inputs) <= 1,
    decreases inputs.len(),
{
    if inputs.len() > 0 {
        let s1 = s.next(inputs[0].0, inputs[0].1);
        assert(!inputs[0].0);
        assert(all_still(inputs.drop_first())) by {
            assert forall|i: int| 0 <= i < inputs.drop_first().len() implies !(
            #[trigger] inputs.drop_first()[i]).0 by {
                assert(inputs.drop_first()[i] == inputs[i + 1]);
            }
        }
        if s.report(inputs[0].0, inputs[0].1).notify {
            law_silent_after_alert_until_vibration(s1, inputs.drop_first());
        } else {
            law_at_most_one_alert_per_cycle(s1, inputs.drop_first());
        }
    }
}

/// A monitor that has never seen a vibration never notifies while the
/// sensor stays still.
pub proof fn law_no_alert_without_vibration(s: ApplianceView, inputs: Seq<(bool, u64)>)
    requires
        s.last_vibration is None,
        all_still(inputs),
    ensures
        notifications(s, inputs) == 0,
        run(s, inputs).last_vibration is None,
    decreases inputs.len(),
{
    if inputs.len() > 0 {
        assert(!inputs[0].0);
        assert(all_still(inputs.drop_first())) by {
            assert forall|i: int| 0 <= i < inputs.drop_first().len() implies !(
            #[trigger] inputs.drop_first()[i]).0 by {
                assert(inputs.drop_first()[i] == inputs[i + 1]);
            }
        }
        law_no_alert_without_vibration(s.next(inputs[0].0, inputs[0].1), inputs.drop_first());
    }
}

/// A still poll at least `idle_timeout` after the last vibration notifies,
/// unless this cycle's notification was already sent.
pub proof fn law_alert_once_idle_timeout_passed(s: ApplianceView, now: u64)
    requires
        s.last_vibration is Some,
        !s.alert_sent,
        elapsed_micros(s.last_vibration->0, now) >= s.idle_timeout,
    ensures
        s.report(false, now).notify,
        s.next(false, now).alert_sent,
{
}

/// No notification comes before the appliance has been still for its idle
/// timeout.
pub proof fn law_no_alert_before_idle_timeout(s: ApplianceView, is_high: bool, now: u64)
    requires
        s.report(is_high, now).notify,
    ensures
        s.next(is_high, now).last_vibration is Some,
        elapsed_micros(s.next(is_high, now).last_vibration->0, now) >= s.idle_timeout,
{
}

/// A vibration starts a new cycle: it is recorded as the last vibration and
/// clears the previous cycle's notification, so the next completion
/// notifies again.
pub proof fn law_vibration_starts_new_cycle(s: ApplianceView, now: u64)
    ensures
        s.next(true, now).last_vibration == Some(now),
        s.next(true, now).last_heartbeat == now,
        s.report(true, now).new_cycle_after_completion == s.alert_sent,
        s.report(true, now).idle_progress is None,
        s.next(true, now).alert_sent == (s.idle_timeout == 0),
{
}

/// A transition is reported exactly when the reading differs from the
/// previous one, and names the new reading.
pub proof fn law_transition_on_change(s: ApplianceView, is_high: bool, now: u64)
    ensures
        (s.report(is_high, now).transition is Some) == (is_high != s.prev_is_high),
        s.report(is_high, now).transition == Some(Transition::Vibrating) ==> is_high,
        s.report(is_high, now).transition == Some(Transition::Still) ==> !is_high,
        s.next(is_high, now).prev_is_high == is_high,
{
}

/// Idle progress messages come at least `HEARTBEAT_MICROS` apart: one is
/// only due that long after the previous one (or the last vibration), and
/// it restarts the count.
pub proof fn law_heartbeat_spacing(s: ApplianceView, is_high: bool, now: u64)
    requires
        s.report(is_high, now).idle_progress is Some,
    ensures
        !is_high,
        elapsed_micros(s.last_heartbeat, now) >= HEARTBEAT_MICROS,
        s.next(is_high, now).last_heartbeat == now,
{
}


/// A poll that reads the sensor LOW, in terms of the state it starts from:
/// it never reports a new cycle; it reports idle progress exactly when a
/// cycle is running (a vibration was seen and its notification not yet
/// sent) and at least `HEARTBEAT_MICROS` have passed since the last
/// heartbeat, with the whole seconds since the last vibration and the
/// timeout in whole seconds; it notifies exactly when a cycle is running
/// and the last vibration is at least `idle_timeout` back. It keeps the
/// last vibration, restarts the heartbeat only when it reports progress,
/// and records the notification when it notifies.
pub proof fn law_still_poll(s: ApplianceView, now: u64)
    ensures
        !s.report(false, now).new_cycle_after_completion,
        (s.report(false, now).idle_progress is Some) <==> (s.last_vibration is Some && !s.alert_sent
            && elapsed_micros(s.last_heartbeat, now) >= HEARTBEAT_MICROS),
        s.report(false, now).idle_progress is Some ==> s.report(false, now).idle_progress == Some(
            IdleProgress {
                elapsed_secs: (elapsed_micros(s.last_vibration->0, now) / MICROS_PER_SEC) as u64,
                timeout_secs: (s.idle_timeout / MICROS_PER_SEC) as u64,
            },
        ),
        s.report(false, now).notify <==> (s.last_vibration is Some && !s.alert_sent
            && elapsed_micros(s.last_vibration->0, now) >= s.idle_timeout),
        s.next(false, now).last_vibration == s.last_vibration,
        s.next(false, now).alert_sent == (s.alert_sent || s.report(false, now).notify),
        s.next(false, now).last_heartbeat == (if s.report(false, now).idle_progress is Some {
            now
        } else {
            s.last_heartbeat
        }),
        s.next(false, now).idle_timeout == s.idle_timeout,
        s.next(false, now).name == s.name,
        s.next(false, now).topic == s.topic,
{
}

/// A poll that reads the sensor HIGH: it reports a new cycle exactly when
/// the previous cycle's notification was sent, never reports idle progress,
/// and notifies only when the idle timeout is zero.
pub proof fn law_vibrating_poll(s: ApplianceView, now: u64)
    ensures
        s.report(true, now).new_cycle_after_completion == s.alert_sent,
        s.report(true, now).idle_progress is None,
        s.report(true, now).notify == (s.idle_timeout == 0),
        s.next(true, now).idle_timeout == s.idle_timeout,
{
}

/// The state before the poll with index `k` of `inputs`, started from `s0`.
pub open spec fn state_before(s0: ApplianceView, inputs: Seq<(bool, u64)>, k: int) -> ApplianceView {
    run(s0, inputs.take(k))
}

/// The report of the poll with index `k` of `inputs`, started from `s0`.
pub open spec fn report_at(s0: ApplianceView, inputs: Seq<(bool, u64)>, k: int) -> PollReport {
    state_before(s0, inputs, k).report(inputs[k].0, inputs[k].1)
}

/// The index of the last poll before index `k` that read the sensor HIGH,
/// or -1 when there is none.
pub open spec fn last_high_before(inputs: Seq<(bool, u64)>, k: int) -> int
    decreases k,
{
    if k <= 0 {
        -1
    } else if inputs[k - 1].0 {
        k - 1
    } else {
        last_high_before(inputs, k - 1)
    }
}

/// The index of the last poll before index `k` that read the sensor HIGH or
/// reported idle progress (the poll the heartbeat counts from), or -1 when
/// there is none.
pub open spec fn heartbeat_poll_before(s0: ApplianceView, inputs: Seq<(bool, u64)>, k: int) -> int
    decreases k,
{
    if k <= 0 {
        -1
    } else if inputs[k - 1].0 || report_at(s0, inputs, k - 1).idle_progress is Some {
        k - 1
    } else {
        heartbeat_poll_before(s0, inputs, k - 1)
    }
}

proof fn lemma_run_push(s: ApplianceView, a: Seq<(bool, u64)>, x: (bool, u64))
    ensures
        run(s, a.push(x)) == run(s, a).next(x.0, x.1),
    decreases a.len(),
{
    if a.len() == 0 {
        assert(a.push(x).drop_first() =~= Seq::<(bool, u64)>::empty());
        assert(a.push(x)[0] == x);
        assert(run(s.next(x.0, x.1), a.push(x).drop_first()) == s.next(x.0, x.1));
        assert(run(s, a) == s);
    } else {
        assert(a.push(x).drop_first() =~= a.drop_first().push(x));
        assert(a.push(x)[0] == a[0]);
        lemma_run_push(s.next(a[0].0, a[0].1), a.drop_first(), x);
    }
}

proof fn lemma_state_before_step(s0: ApplianceView, inputs: Seq<(bool, u64)>, k: int)
    requires
        0 <= k < inputs.len(),
    ensures
        state_before(s0, inputs, k + 1) == state_before(s0, inputs, k).next(inputs[k].0, inputs[k].1),
{
    assert(inputs.take(k + 1) =~= inputs.take(k).push(inputs[k]));
    lemma_run_push(s0, inputs.take(k), inputs[k]);
}

/// What the state before poll `k` holds, in terms of the polls before it.
proof fn lemma_run_history(s0: ApplianceView, inputs: Seq<(bool, u64)>, k: int)
    requires
        s0.last_vibration is None,
        !s0.alert_sent,
        0 <= k <= inputs.len(),
    ensures
        ({
            let s = state_before(s0, inputs, k);
            let lh = last_high_before(inputs, k);
            let hr = heartbeat_poll_before(s0, inputs, k);
            &&& s.idle_timeout == s0.idle_timeout
            &&& -1 <= lh < k
            &&& lh >= 0 ==> inputs[lh].0
            &&& forall|j: int| lh < j < k ==> !(#[trigger] inputs[j]).0
            &&& lh == -1 ==> s.last_vibration is None && !s.alert_sent
            &&& lh >= 0 ==> s.last_vibration == Some(inputs[lh].1)
            &&& lh >= 0 ==> (s.alert_sent <==> exists|j: int|
                lh <= j < k && (#[trigger] report_at(s0, inputs, j)).notify)
            &&& lh >= 0 ==> lh <= hr < k
            &&& lh >= 0 ==> s.last_heartbeat == inputs[hr].1
            &&& lh >= 0 ==> (hr == lh || report_at(s0, inputs, hr).idle_progress is Some)
            &&& forall|j: int|
                hr < j < k ==> (#[trigger] report_at(s0, inputs, j)).idle_progress is None
        }),
    decreases k,
{
    if k == 0 {
        assert(inputs.take(0) =~= Seq::<(bool, u64)>::empty());
    } else {
        let k0 = k - 1;
        lemma_run_history(s0, inputs, k0);
        lemma_state_before_step(s0, inputs, k0);
        let s = state_before(s0, inputs, k0);
        let x = inputs[k0];
        let lh = last_high_before(inputs, k0);
        let hr = heartbeat_poll_before(s0, inputs, k0);
        let r = report_at(s0, inputs, k0);
        assert(r == s.report(x.0, x.1));
        if x.0 {
            assert(last_high_before(inputs, k) == k0);
            assert(heartbeat_poll_before(s0, inputs, k) == k0);
            let s1 = state_before(s0, inputs, k);
            assert(s1.alert_sent == r.notify);
            if s1.alert_sent {
                assert(k0 <= k0 < k && report_at(s0, inputs, k0).notify);
            }
        } else {
            assert(last_high_before(inputs, k) == lh);
            assert forall|j: int| lh < j < k implies !(#[trigger] inputs[j]).0 by {
                if j < k0 {
                } else {
                    assert(j == k0);
                }
            }
            let s1 = state_before(s0, inputs, k);
            if lh >= 0 {
                assert(s1.alert_sent == (s.alert_sent || r.notify));
                if s1.alert_sent {
                    if r.notify {
                        assert(lh <= k0 < k && report_at(s0, inputs, k0).notify);
                    } else {
                        let j = choose|j: int| lh <= j < k0 && (#[trigger] report_at(s0, inputs, j)).notify;
                        assert(lh <= j < k && report_at(s0, inputs, j).notify);
                    }
                } else {
                    assert forall|j: int| lh <= j < k implies !(#[trigger] report_at(s0, inputs, j)).notify by {
                        if j == k0 {
                        } else {
                            assert(!(lh <= j < k0 && report_at(s0, inputs, j).notify));
                        }
                    }
                }
            }
            if r.idle_progress is Some {
                assert(heartbeat_poll_before(s0, inputs, k) == k0);
            } else {
                assert(heartbeat_poll_before(s0, inputs, k) == hr);
                assert forall|j: int| hr < j < k implies (#[trigger] report_at(s0, inputs, j)).idle_progress is None by {
                    if j == k0 {
                    }
                }
            }
        }
    }
}

/// Over any run of polls of a new monitor, poll `k` notifies exactly when
/// some poll `l <= k` read the sensor HIGH with none HIGH after it, at least
/// `idle_timeout` has passed from poll `l` to poll `k`, and no poll from `l`
/// up to `k` notified already.
pub proof fn law_notify_iff_still_for_timeout_since_last_vibration(
    s0: ApplianceView,
    inputs: Seq<(bool, u64)>,
    k: int,
)
    requires
        s0.last_vibration is None,
        !s0.alert_sent,
        0 <= k < inputs.len(),
    ensures
        report_at(s0, inputs, k).notify <==> exists|l: int|
            #![trigger inputs[l]]
            0 <= l <= k && inputs[l].0 && (forall|j: int| l < j <= k ==> !(#[trigger] inputs[j]).0)
                && elapsed_micros(inputs[l].1, inputs[k].1) >= s0.idle_timeout && (forall|j: int|
                l <= j < k ==> !(#[trigger] report_at(s0, inputs, j)).notify),
{
    lemma_run_history(s0, inputs, k);
    let s = state_before(s0, inputs, k);
    let lh = last_high_before(inputs, k);
    let x = inputs[k];
    let big_l = if x.0 {
        k
    } else {
        lh
    };
    if report_at(s0, inputs, k).notify {
        assert(big_l >= 0);
        assert(inputs[big_l].0);
        assert forall|j: int| big_l < j <= k implies !(#[trigger] inputs[j]).0 by {
        }
        if !x.0 {
            assert forall|j: int| big_l <= j < k implies !(#[trigger] report_at(s0, inputs, j)).notify by {
                if report_at(s0, inputs, j).notify {
                    assert(s.alert_sent);
                }
            }
        }
    }
    if exists|l: int|
        #![trigger inputs[l]]
        0 <= l <= k && inputs[l].0 && (forall|j: int| l < j <= k ==> !(#[trigger] inputs[j]).0)
            && elapsed_micros(inputs[l].1, inputs[k].1) >= s0.idle_timeout && (forall|j: int|
            l <= j < k ==> !(#[trigger] report_at(s0, inputs, j)).notify) {
        let l = choose|l: int|
            #![trigger inputs[l]]
            0 <= l <= k && inputs[l].0 && (forall|j: int| l < j <= k ==> !(#[trigger] inputs[j]).0)
                && elapsed_micros(inputs[l].1, inputs[k].1) >= s0.idle_timeout && (forall|j: int|
                l <= j < k ==> !(#[trigger] report_at(s0, inputs, j)).notify);
        if x.0 {
            if l < k {
                assert(!inputs[k].0);
            }
            assert(l == k);
        } else {
            assert(l < k);
            if l > lh {
                assert(!inputs[l].0);
            }
            if lh > l {
                assert(!inputs[lh].0);
            }
            assert(l == lh);
            if s.alert_sent {
                let j = choose|j: int| lh <= j < k && (#[trigger] report_at(s0, inputs, j)).notify;
                assert(!report_at(s0, inputs, j).notify);
            }
        }
        assert(report_at(s0, inputs, k).notify);
    }
}

/// Over any run of polls of a new monitor, when poll `k` reports idle
/// progress: the sensor is still at `k`; some earlier poll `l` read it HIGH
/// with none HIGH after it; nothing was notified from `l` up to `k`; at
/// least `HEARTBEAT_MICROS` have passed since the previous idle message
/// after `l` (or since `l` when there was none); and the message gives the
/// whole seconds since poll `l` and the idle timeout in whole seconds.
pub proof fn law_idle_messages_over_run(s0: ApplianceView, inputs: Seq<(bool, u64)>, k: int)
    requires
        s0.last_vibration is None,
        !s0.alert_sent,
        0 <= k < inputs.len(),
        report_at(s0, inputs, k).idle_progress is Some,
    ensures
        ({
            let l = last_high_before(inputs, k);
            let r = heartbeat_poll_before(s0, inputs, k);
            &&& !inputs[k].0
            &&& 0 <= l <= r < k
            &&& inputs[l].0
            &&& forall|j: int| l < j <= k ==> !(#[trigger] inputs[j]).0
            &&& forall|j: int| l <= j < k ==> !(#[trigger] report_at(s0, inputs, j)).notify
            &&& r == l || report_at(s0, inputs, r).idle_progress is Some
            &&& forall|j: int|
                r < j < k ==> (#[trigger] report_at(s0, inputs, j)).idle_progress is None
            &&& elapsed_micros(inputs[r].1, inputs[k].1) >= HEARTBEAT_MICROS
            &&& report_at(s0, inputs, k).idle_progress == Some(
                IdleProgress {
                    elapsed_secs: (elapsed_micros(inputs[l].1, inputs[k].1) / MICROS_PER_SEC) as u64,
                    timeout_secs: (s0.idle_timeout / MICROS_PER_SEC) as u64,
                },
            )
        }),
{
    lemma_run_history(s0, inputs, k);
    let s = state_before(s0, inputs, k);
    let l = last_high_before(inputs, k);
    let x = inputs[k];
    assert(!x.0);
    assert(l >= 0);
    assert forall|j: int| l < j <= k implies !(#[trigger] inputs[j]).0 by {
    }
    assert forall|j: int| l <= j < k implies !(#[trigger] report_at(s0, inputs, j)).notify by {
        if report_at(s0, inputs, j).notify {
            assert(s.alert_sent);
        }
    }
}

} // verus!

use std::sync::Arc;
use std::sync::atomic::AtomicUsize;
use std::sync::atomic::Ordering;
use std::task::Waker;

use futures_util::task::ArcWake;
use futures_util::task::waker;

use wake_probe::MismatchReport;
use wake_probe::WakeWarner;
use wake_probe::instrument;

/// An outer notification handle that counts how often it is triggered.
struct CountingWake {
    count: AtomicUsize,
}

impl ArcWake for CountingWake {
    fn wake_by_ref(arc_self: &Arc<Self>) {
        arc_self.count.fetch_add(1, Ordering::SeqCst);
    }
}

fn counting_waker() -> (Arc<CountingWake>, Waker) {
    let probe = Arc::new(CountingWake { count: AtomicUsize::new(0) });
    let handle = waker(probe.clone());
    (probe, handle)
}

fn wakes(probe: &Arc<CountingWake>) -> usize {
    probe.count.load(Ordering::SeqCst)
}

#[test]
fn mismatch_reported_for_cross_scheduler_trigger() {
    let warner = WakeWarner::new(1);
    assert_eq!(
        warner.trigger(Some(2)),
        Some(MismatchReport { expected: 1, observed: 2 })
    );
}

#[test]
fn no_mismatch_for_same_identity_trigger() {
    let warner = WakeWarner::new(1);
    assert_eq!(warner.trigger(Some(1)), None);
}

#[test]
fn no_mismatch_outside_any_scheduler() {
    let warner = WakeWarner::new(1);
    assert_eq!(warner.trigger(None), None);
}

#[test]
fn null_registration_trigger_is_noop() {
    let warner = WakeWarner::new(7);
    assert_eq!(warner.trigger(None), None);
    assert_eq!(warner.trigger(Some(7)), None);
    assert_eq!(
        warner.trigger(Some(8)),
        Some(MismatchReport { expected: 7, observed: 8 })
    );
}

#[test]
fn registered_handle_is_woken() {
    let warner = WakeWarner::new(1);
    let (probe, handle) = counting_waker();
    warner.register(&handle);
    assert_eq!(wakes(&probe), 0);
    warner.trigger(None);
    assert_eq!(wakes(&probe), 1);
}

#[test]
fn latest_registration_wins() {
    let warner = WakeWarner::new(1);
    let (first_probe, first_handle) = counting_waker();
    let (second_probe, second_handle) = counting_waker();
    warner.register(&first_handle);
    warner.register(&second_handle);
    warner.trigger(None);
    assert_eq!(wakes(&first_probe), 0);
    assert_eq!(wakes(&second_probe), 1);
}

#[test]
fn wake_is_consumed_by_trigger() {
    let warner = WakeWarner::new(1);
    let (probe, handle) = counting_waker();
    warner.register(&handle);
    warner.trigger(None);
    warner.trigger(None);
    assert_eq!(wakes(&probe), 1);
}

#[test]
fn reregistration_after_trigger_wakes_again() {
    let warner = WakeWarner::new(1);
    let (probe, handle) = counting_waker();
    warner.register(&handle);
    warner.trigger(None);
    warner.register(&handle);
    warner.trigger(None);
    assert_eq!(wakes(&probe), 2);
}

#[test]
fn same_identity_reentry_never_reports() {
    let warner = WakeWarner::new(4);
    let (probe, handle) = counting_waker();
    let mut round: u32 = 0;
    while round < 5 {
        warner.register(&handle);
        assert_eq!(warner.trigger(Some(4)), None);
        warner.register(&handle);
        assert_eq!(warner.trigger(None), None);
        round += 1;
    }
    assert_eq!(wakes(&probe), 10);
}

#[test]
fn instrument_records_identity_and_computation() {
    let wrapped = instrument(7, 42u32);
    assert_eq!(wrapped.f, 42);
    assert_eq!(wrapped.identity(), 7);
    assert_eq!(wrapped.warner.runtime_id(), 7);
}

#[test]
fn register_outer_routes_wake_through_warner() {
    let wrapped = instrument(3, ());
    let (probe, handle) = counting_waker();
    wrapped.register_outer(&handle);
    assert_eq!(
        wrapped.warner.trigger(Some(4)),
        Some(MismatchReport { expected: 3, observed: 4 })
    );
    assert_eq!(wakes(&probe), 1);
}

/// A computation driven by hand: completes with a value on its third drive.
struct ThreeStep {
    steps: u32,
}

fn drive_three_step(m: &mut ThreeStep) -> Option<u32> {
    m.steps += 1;
    if m.steps >= 3 { Some(m.steps * 10) } else { None }
}

#[test]
fn pass_through_drive_results_unchanged() {
    // Drive the computation directly.
    let mut direct = ThreeStep { steps: 0 };
    let mut direct_pending: u32 = 0;
    let direct_value;
    loop {
        match drive_three_step(&mut direct) {
            Some(v) => {
                direct_value = v;
                break;
            }
            None => direct_pending += 1,
        }
    }

    // Drive the same computation wrapped, registering an outer handle and
    // triggering the notifier between drives, as a scheduler would.
    let mut wrapped = instrument(1, ThreeStep { steps: 0 });
    let (probe, handle) = counting_waker();
    let mut wrapped_pending: u32 = 0;
    let wrapped_value;
    loop {
        wrapped.register_outer(&handle);
        match drive_three_step(&mut wrapped.f) {
            Some(v) => {
                wrapped_value = v;
                break;
            }
            None => {
                wrapped_pending += 1;
                assert_eq!(wrapped.warner.trigger(Some(1)), None);
            }
        }
    }

    assert_eq!(wrapped_value, direct_value);
    assert_eq!(wrapped_pending, direct_pending);
    assert_eq!(wakes(&probe), 2);
}

#[test]
fn cross_scheduler_end_to_end() {
    // Computation A, wrapped for scheduler instance 1, suspends waiting on a
    // channel; computation B, wrapped for scheduler instance 2, sends the
    // value and, still running inside scheduler instance 2, triggers A's
    // notifier.
    let a = instrument(1, ());
    let b = instrument(2, ());
    assert_eq!(a.identity(), 1);
    assert_eq!(b.identity(), 2);

    let (a_probe, a_handle) = counting_waker();
    a.register_outer(&a_handle);

    let mut channel: Option<u64> = None;

    // B completes inside scheduler instance 2: its own notifier sees a
    // same-identity trigger, A's notifier sees a cross-scheduler one.
    channel = Some(5);
    assert_eq!(b.warner.trigger(Some(2)), None);
    assert_eq!(
        a.warner.trigger(Some(2)),
        Some(MismatchReport { expected: 1, observed: 2 })
    );

    // A is woken exactly once and observes the value sent on the channel.
    assert_eq!(wakes(&a_probe), 1);
    assert_eq!(channel, Some(5));
}

#[test]
fn ambient_trigger_outside_any_runtime() {
    let warner = WakeWarner::new(1);
    assert_eq!(warner.trigger_ambient(), None);
}

#[test]
fn ambient_trigger_inside_runtime() {
    let runtime = tokio::runtime::Builder::new_current_thread().build().unwrap();
    runtime.block_on(async {
        let id: u64 = tokio::runtime::Handle::current()
            .id()
            .to_string()
            .parse()
            .unwrap();
        let same = WakeWarner::new(id);
        assert_eq!(same.trigger_ambient(), None);
        let other = WakeWarner::new(id.wrapping_add(1));
        let report = other.trigger_ambient().unwrap();
        assert_eq!(report.expected, id.wrapping_add(1));
        assert_eq!(report.observed, id);
    });
}

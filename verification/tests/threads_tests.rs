use bitbazaar::threads::fut_runner::{runner_wait_step, RunnerWaitAction, RunnerWaitEvent, RunnerWaitStage};
use bitbazaar::result_store::ResultStore;
use bitbazaar::threads::fut_runner::{
    must_wait_for_slot, new_fut_runner, throughput_wait_ns, FUT_RUNNER_PRIORITY_DEFAULT,
};
use bitbazaar::threads::in_order::InOrderReleaser;
use bitbazaar::threads::prioritizer::Prioritizer;

#[test]
fn prioritizer_lowest_number_goes_first() {
    let mut p = Prioritizer::new();
    let low = p.register(10);
    let high = p.register(FUT_RUNNER_PRIORITY_DEFAULT);
    assert_eq!((low, high), (0, 1));
    // The priority 0 runner is at the head; the priority 10 one must wait.
    assert_eq!(p.is_highest_priority(10), (false, Some(high)));
    assert_eq!(p.is_highest_priority(0), (true, Some(high)));
    // Once the high priority runner lets go, the other is woken and may go.
    assert_eq!(p.release(high), Some(low));
    assert_eq!(p.is_highest_priority(10), (true, Some(low)));
    assert_eq!(p.release(low), None);
    // Nobody queued: nobody is highest.
    assert_eq!(p.is_highest_priority(0), (false, None));
}

#[test]
fn prioritizer_released_blocks_behind_the_head_stay_until_they_reach_it() {
    let mut p = Prioritizer::new();
    let a = p.register(1);
    let b = p.register(5);
    // b lets go while a is still at the head:
    assert_eq!(p.release(b), Some(a));
    assert_eq!(p.is_highest_priority(2), (false, Some(a)));
    assert_eq!(p.release(a), None);
    assert_eq!(p.pop_released_heads(), None);
}

#[test]
fn in_order_releaser_passes_results_in_push_order() {
    let mut r = InOrderReleaser::new();
    assert_eq!(r.accept(2, "c"), Vec::<&str>::new());
    assert_eq!(r.accept(1, "b"), Vec::<&str>::new());
    assert_eq!(r.accept(0, "a"), vec!["a", "b", "c"]);
    assert_eq!(r.accept(3, "d"), vec!["d"]);
    assert_eq!(r.accept(5, "f"), Vec::<&str>::new());
    assert_eq!(r.accept(4, "e"), vec!["e", "f"]);
}

#[test]
fn fut_runner_builder_and_limits() {
    let b = new_fut_runner();
    assert!(!b.is_ordered());
    assert_eq!(b.get_max_concurrent(), None);
    assert_eq!(b.get_max_throughput(), None);
    let b = b
        .max_concurrent(3)
        .order_output()
        .max_throughput(chrono::TimeDelta::milliseconds(100));
    assert!(b.is_ordered());
    assert_eq!(b.get_max_concurrent(), Some(3));
    assert_eq!(b.get_max_throughput(), Some(chrono::TimeDelta::milliseconds(100)));

    assert!(must_wait_for_slot(3, 3));
    assert!(!must_wait_for_slot(2, 3));
    assert_eq!(throughput_wait_ns(None, 100), 0);
    assert_eq!(throughput_wait_ns(Some(30), 100), 70);
    assert_eq!(throughput_wait_ns(Some(130), 100), 0);
}

#[test]
fn result_store_orders_outputs() {
    let mut store = ResultStore::new(true);
    store.store(1, "b");
    assert_eq!(store.next(), None);
    store.store(0, "a");
    assert_eq!(store.len(), 2);
    assert_eq!(store.next(), Some("a"));
    assert_eq!(store.next(), Some("b"));
    assert_eq!(store.next(), None);
    store.store(3, "d");
    store.store(2, "c");
    assert_eq!(store.consume(), vec!["c", "d"]);

    let mut unordered = ResultStore::new(false);
    unordered.store(5, 1);
    unordered.store(0, 2);
    assert_eq!(unordered.next(), Some(2));
    assert_eq!(unordered.consume(), vec![1]);
}

#[test]
fn test_runner_wait_restarts_when_outranked() {
    let (stage, action) =
        runner_wait_step(RunnerWaitStage::Start, RunnerWaitEvent::Priority { highest: false }, true, false);
    assert_eq!((stage, action), (RunnerWaitStage::Woken, RunnerWaitAction::WaitForWake));
    let (stage, action) = runner_wait_step(stage, RunnerWaitEvent::Woke, true, false);
    assert_eq!((stage, action), (RunnerWaitStage::Slot, RunnerWaitAction::TakeSlot));
    let (stage, action) = runner_wait_step(stage, RunnerWaitEvent::SlotTaken, true, true);
    assert_eq!((stage, action), (RunnerWaitStage::Recheck, RunnerWaitAction::CheckPriority));
    assert_eq!(
        runner_wait_step(stage, RunnerWaitEvent::Priority { highest: false }, true, true),
        (RunnerWaitStage::Start, RunnerWaitAction::Restart)
    );
    assert_eq!(
        runner_wait_step(stage, RunnerWaitEvent::Priority { highest: true }, true, true),
        (RunnerWaitStage::Throughput, RunnerWaitAction::HoldThroughput)
    );
    assert_eq!(
        runner_wait_step(stage, RunnerWaitEvent::Priority { highest: true }, true, false),
        (RunnerWaitStage::Done, RunnerWaitAction::Begin)
    );
    assert_eq!(
        runner_wait_step(
            RunnerWaitStage::Throughput,
            RunnerWaitEvent::ThroughputWaited { had_last: true, highest: false },
            false,
            true
        ),
        (RunnerWaitStage::Start, RunnerWaitAction::Restart)
    );
    assert_eq!(
        runner_wait_step(
            RunnerWaitStage::Throughput,
            RunnerWaitEvent::ThroughputWaited { had_last: false, highest: false },
            false,
            true
        ),
        (RunnerWaitStage::Done, RunnerWaitAction::Begin)
    );
}

#[test]
fn test_runner_wait_without_limit_skips_slot_and_recheck() {
    assert_eq!(
        runner_wait_step(RunnerWaitStage::Start, RunnerWaitEvent::Priority { highest: true }, false, false),
        (RunnerWaitStage::Done, RunnerWaitAction::Begin)
    );
    assert_eq!(
        runner_wait_step(RunnerWaitStage::Woken, RunnerWaitEvent::Woke, false, true),
        (RunnerWaitStage::Throughput, RunnerWaitAction::HoldThroughput)
    );
}

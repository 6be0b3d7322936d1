use std::sync::{atomic::AtomicUsize, Arc};
use std::time::Duration;

use bitbazaar::misc::flexi_phase::{nanos_between, FlexiLogPhase, UtcTimestamp};
use bitbazaar::misc::global_lock::{final_host_lock_id, lock_entry_unused};
use bitbazaar::misc::lazy_batcher::BatchBuffer;
use bitbazaar::misc::lazy_clone::{IterWithCloneLazy, LazyCloneIter};
use bitbazaar::misc::looper::Looper;
use bitbazaar::misc::periodic::{mutate_id_changed, periodic_update_due, refresh_due};
use bitbazaar::misc::platform::{architecture_type, os_type, Arch, OsType};
use bitbazaar::misc::random_bytes::{lcg_random_bytes, random_bytes_insecure_speedy};
use bitbazaar::misc::retry::{
    backoff_delay_before, backoff_total_attempts, fibonacci_step, retry_after_failure, RetryStep,
    RetryUntil, TIME_DELTA_MAX_NS,
};
use bitbazaar::misc::setup_once::{
    setup_once_lock_name, setup_once_step, SetupOnceAction, SetupOnceEvent, SetupOnceStage,
};
use bitbazaar::misc::tarball::{tarball_compress, tarball_decompress, TarballErr};
use bitbazaar::misc::url_escape::{url_escape, url_unescape};

#[test]
fn test_random_bytes_insecure_speedy() {
    let data = random_bytes_insecure_speedy(10);
    assert_eq!(data.len(), 10);
    // Make sure not all the same number:
    assert!(data.iter().any(|&x| x != data[0]));
}

#[test]
fn lcg_random_bytes_follows_the_generator() {
    // One step from seed 0: state = 1, byte = bits 32..40 = 0.
    // Two steps: state = 6364136223846793005 + 1, byte = (that >> 32) as u8.
    let data = lcg_random_bytes(0, 2);
    assert_eq!(data.len(), 2);
    assert_eq!(data[0], 0);
    let state2 = 6364136223846793005u64.wrapping_mul(1).wrapping_add(1);
    assert_eq!(data[1], (state2 >> 32) as u8);
    // Same seed, same bytes:
    assert_eq!(lcg_random_bytes(1234, 50), lcg_random_bytes(1234, 50));
    assert_eq!(lcg_random_bytes(7, 0), Vec::<u8>::new());
}

#[test]
fn test_url_escape() {
    assert_eq!(url_escape("hello world"), "hello%20world");
    assert_eq!(url_escape("hello+world"), "hello%2Bworld");
    assert_eq!(url_escape("hello%world"), "hello%25world");
}

#[test]
fn test_url_unescape() {
    assert_eq!(url_unescape("hello%20world"), "hello world");
    assert_eq!(url_unescape("hello%2Bworld"), "hello+world");
    assert_eq!(url_unescape("hello%25world"), "hello%world");
}

#[test]
fn url_escape_multibyte_and_round_trip() {
    // Each UTF-8 byte of a non-ASCII char is escaped:
    assert_eq!(url_escape("é"), "%C3%A9");
    assert_eq!(url_escape("aZ09"), "aZ09");
    assert_eq!(url_escape("-_.~"), "%2D%5F%2E%7E");
    assert_eq!(url_escape(""), "");
    for s in ["hello world", "ünïcödé ✓", "a/b?c=d&e", "%%%", ""] {
        assert_eq!(url_unescape(&url_escape(s)), s);
    }
}

#[test]
fn url_unescape_edge_cases() {
    // Lower case hex is decoded too; lone or broken escapes stay as they are.
    assert_eq!(url_unescape("%2b%2B"), "++");
    assert_eq!(url_unescape("100%"), "100%");
    assert_eq!(url_unescape("%zz"), "%zz");
    assert_eq!(url_unescape("%C3%A9"), "é");
}

#[test]
fn test_lazy_clone_with_clone_lazy() {
    struct Test {
        tot_clones: Arc<AtomicUsize>,
    }
    impl Clone for Test {
        fn clone(&self) -> Self {
            self.tot_clones
                .fetch_add(1, std::sync::atomic::Ordering::Relaxed);
            Test {
                tot_clones: self.tot_clones.clone(),
            }
        }
    }

    // Try for 0..10 iterator length, main things to check are 0, 1 and >1.
    // For all but final iteration, should clone, then pass by value.
    for count in 0..10 {
        let tot_clones = Arc::new(AtomicUsize::new(0));
        let test = Test {
            tot_clones: tot_clones.clone(),
        };
        let mut iter = (0..count).collect::<Vec<usize>>().with_clone_lazy(test);
        while let Some((t, index)) = iter.next() {
            assert_eq!(
                t.tot_clones.load(std::sync::atomic::Ordering::Relaxed),
                if index < count - 1 { index + 1 } else { index }
            );
        }
        assert_eq!(
            tot_clones.load(std::sync::atomic::Ordering::Relaxed),
            count.max(1) - 1
        );
    }
}

#[test]
fn lazy_clone_pairs_in_order() {
    let mut iter = LazyCloneIter::new(vec!["a", "b", "c"], String::from("x"));
    assert_eq!(iter.next(), Some((String::from("x"), "a")));
    assert_eq!(iter.next(), Some((String::from("x"), "b")));
    assert_eq!(iter.next(), Some((String::from("x"), "c")));
    assert_eq!(iter.next(), None);
    assert_eq!(iter.next(), None);
}

#[test]
fn looper_accessors() {
    let mut looper = Looper::new(1u32, String::from("v"));
    assert_eq!(*looper.state(), 1);
    *looper.state_mut() += 1;
    assert_eq!(*looper.state(), 2);
    looper.value_mut().push('w');
    assert_eq!(looper.value(), "vw");
    assert!(!looper.stop_early);
    looper.stop_early();
    assert!(looper.stop_early);
}

#[test]
fn platform_detection() {
    assert_eq!(os_type(true, false, false), OsType::Windows);
    assert_eq!(os_type(false, true, true), OsType::Macos);
    assert_eq!(os_type(false, true, false), OsType::Linux);
    assert_eq!(os_type(false, false, false), OsType::Unknown);
    assert_eq!(architecture_type("x86"), Arch::X32);
    assert_eq!(architecture_type("x86_64"), Arch::X64);
    assert_eq!(architecture_type("aarch64"), Arch::Arm);
    assert_eq!(architecture_type("arm"), Arch::Arm);
    assert_eq!(architecture_type("riscv64"), Arch::Other("riscv64"));
}

#[test]
fn retry_until_and_steps() {
    let attempts = RetryUntil::TotalAttempts(3);
    assert!(!attempts.is_delay_length_based());
    assert!(attempts.has_end_reached(3, 0, 0));
    assert!(!attempts.has_end_reached(2, 0, 0));
    let total = RetryUntil::TotalDelay(100);
    assert!(total.is_delay_length_based());
    assert!(total.has_end_reached(1, 101, 0));
    assert!(!total.has_end_reached(1, 100, 0));
    let delay = RetryUntil::Delay(50);
    assert!(delay.has_end_reached(1, 0, 51));
    assert!(!delay.has_end_reached(1, 0, 50));

    assert_eq!(retry_after_failure(&attempts, 1, 10, None), RetryStep::GiveUp);
    assert_eq!(retry_after_failure(&attempts, 3, 10, Some(5)), RetryStep::GiveUp);
    assert_eq!(
        retry_after_failure(&attempts, 1, 10, Some(5)),
        RetryStep::Retry { total_delay_ns: 15 }
    );
    assert_eq!(
        retry_after_failure(&delay, 1, 0, Some(0)),
        RetryStep::EndlessZeroDelays
    );
    assert_eq!(
        retry_after_failure(&attempts, 1, 0, Some(0)),
        RetryStep::Retry { total_delay_ns: 0 }
    );
    assert_eq!(
        retry_after_failure(&attempts, 1, TIME_DELTA_MAX_NS, Some(1)),
        RetryStep::DelayOverflow
    );
}

#[test]
fn fibonacci_backoff_steps() {
    let (mut curr, mut next) = (10i64, 10i64);
    let mut delays = vec![];
    for _ in 0..5 {
        let (delay, c, n) = fibonacci_step(curr, next);
        delays.push(delay);
        curr = c;
        next = n;
    }
    assert_eq!(delays, vec![10, 10, 20, 30, 50]);
    assert_eq!(fibonacci_step(i64::MAX, 1), (i64::MAX, 1, i64::MAX));
}

#[test]
fn backoff_schedule() {
    assert_eq!(backoff_total_attempts(3, None), 4);
    assert_eq!(backoff_total_attempts(3, Some(2)), 6);
    let delays = [Duration::from_millis(1), Duration::from_millis(2), Duration::from_millis(3)];
    assert_eq!(backoff_delay_before(&delays, 0), None);
    assert_eq!(backoff_delay_before(&delays, 1), Some(Duration::from_millis(1)));
    assert_eq!(backoff_delay_before(&delays, 3), Some(Duration::from_millis(3)));
    assert_eq!(backoff_delay_before(&delays, 5), Some(Duration::from_millis(3)));
}

#[test]
fn setup_once_decisions() {
    assert_eq!(setup_once_lock_name("my_id", "v1"), "my_id_v1");
    // Flag present: otherwise only.
    assert_eq!(
        setup_once_step(SetupOnceStage::Start, SetupOnceEvent::FlagChecked { exists: true }, false),
        (SetupOnceStage::Otherwise, SetupOnceAction::RunOtherwise)
    );
    assert_eq!(
        setup_once_step(SetupOnceStage::Otherwise, SetupOnceEvent::OtherwiseFinished { ok: true }, true),
        (SetupOnceStage::Done, SetupOnceAction::Finish)
    );
    // Flag missing: lock, recheck, then setup.
    assert_eq!(
        setup_once_step(SetupOnceStage::Start, SetupOnceEvent::FlagChecked { exists: false }, false),
        (SetupOnceStage::Locked, SetupOnceAction::LockAndRecheck)
    );
    assert_eq!(
        setup_once_step(SetupOnceStage::Locked, SetupOnceEvent::FlagChecked { exists: false }, false),
        (SetupOnceStage::Setup, SetupOnceAction::RunSetup)
    );
    // Someone else finished the setup while we waited on the lock:
    assert_eq!(
        setup_once_step(SetupOnceStage::Locked, SetupOnceEvent::FlagChecked { exists: true }, false),
        (SetupOnceStage::Otherwise, SetupOnceAction::RunOtherwise)
    );
    // Otherwise failing reruns the setup only when asked to:
    assert_eq!(
        setup_once_step(SetupOnceStage::Otherwise, SetupOnceEvent::OtherwiseFinished { ok: false }, true),
        (SetupOnceStage::Setup, SetupOnceAction::RunSetup)
    );
    assert_eq!(
        setup_once_step(SetupOnceStage::Otherwise, SetupOnceEvent::OtherwiseFinished { ok: false }, false),
        (SetupOnceStage::Done, SetupOnceAction::Finish)
    );
    assert_eq!(
        setup_once_step(SetupOnceStage::Setup, SetupOnceEvent::SetupFinished { ok: false }, true),
        (SetupOnceStage::Done, SetupOnceAction::Finish)
    );
}

#[test]
fn global_lock_names() {
    assert_eq!(final_host_lock_id("abc"), "rs_bitbazaar_global_lock_abc");
    assert!(lock_entry_unused(2));
    assert!(!lock_entry_unused(3));
}

#[test]
fn periodic_and_refresh_checks() {
    assert_eq!(periodic_update_due(1_000, 0, 1_000), (1_000, true));
    assert_eq!(periodic_update_due(1_500, 1_000, 1_000), (500, false));
    assert!(refresh_due(true, 10, 10, 100));
    assert!(refresh_due(true, 5, 10, 100));
    assert!(!refresh_due(false, 50, 10, 100));
    assert!(refresh_due(false, 200, 10, 100));
    assert!(mutate_id_changed(Some(3), 2));
    assert!(!mutate_id_changed(Some(2), 2));
    assert!(!mutate_id_changed(None, 2));
}

#[test]
fn lazy_batcher_buffer() {
    let mut buf = BatchBuffer::new();
    assert!(buf.push(1));
    assert!(!buf.push(2));
    assert!(!buf.extend(vec![3, 4]));
    assert_eq!(buf.take_batch(), Some(vec![1, 2, 3, 4]));
    assert_eq!(buf.take_batch(), None);
    // An empty extension on an empty buffer still starts a batch, which then has nothing to send.
    assert!(buf.extend(vec![]));
    assert_eq!(buf.take_batch(), None);
}

#[test]
fn flexi_log_phases() {
    let t0 = UtcTimestamp { secs: 100, nanos: 500 };
    let t1 = UtcTimestamp { secs: 102, nanos: 100 };
    assert_eq!(nanos_between(t0, t1), 2_000_000_000 - 400);
    assert_eq!(FlexiLogPhase::Pending.elapsed(t1), None);
    assert!(!FlexiLogPhase::Pending.is_finished());
    let running = FlexiLogPhase::to_running(t0);
    assert_eq!(running.elapsed(t1), Some(1_999_999_600));
    let failed = running.to_failed_pending_retry(t1, t1);
    assert_eq!(
        failed,
        FlexiLogPhase::FailedPendingRetry {
            started_at: t0,
            finished_at: t1,
            num_tries_done: 1,
            scheduled_for: t1
        }
    );
    assert!(!failed.is_finished());
    let failed_again = failed.to_failed_pending_retry(t1, t1);
    assert!(matches!(
        failed_again,
        FlexiLogPhase::FailedPendingRetry { num_tries_done: 2, .. }
    ));
    let done = running.to_completed(t1);
    assert!(done.is_finished());
    assert_eq!(done.elapsed(t0), Some(1_999_999_600));
    assert!(running.to_failed(t1).is_finished());
    // A pending flow that fails started now.
    assert_eq!(
        FlexiLogPhase::Pending.to_failed(t1),
        FlexiLogPhase::Failed { started_at: t1, finished_at: t1 }
    );
}

#[test]
fn test_tarball() {
    // Create using compress function, checking:
    // - multiple files
    // - files in directories
    let tarball = tarball_compress(&[
        (b"foo.txt".to_vec(), b"foo".to_vec()),
        (b"bar.txt".to_vec(), b"bar".to_vec()),
        (b"nested/ree.txt".to_vec(), b"ree".to_vec()),
    ])
    .unwrap();

    // Decompress using decompress function, checking:
    // - multiple files
    // - files in directories
    let files = tarball_decompress(&tarball, std::collections::HashMap::new(), |mut looper| {
        let (path, data) = looper.value().clone();
        looper.state_mut().insert(String::from_utf8(path).unwrap(), data);
        Ok::<_, ()>(looper)
    })
    .unwrap();
    assert_eq!(files.len(), 3, "{:#?}", files);
    assert!(files.contains_key("foo.txt"), "{:#?}", files);
    assert!(files.contains_key("bar.txt"), "{:#?}", files);
    assert!(files.contains_key("nested/ree.txt"), "{:#?}", files);
    assert_eq!(files["foo.txt"], b"foo", "{:#?}", files);
    assert_eq!(files["bar.txt"], b"bar", "{:#?}", files);
    assert_eq!(files["nested/ree.txt"], b"ree", "{:#?}", files);

    // Confirm early exit works, call stop_early(), meaning only 1 file should be output:
    let files = tarball_decompress(&tarball, std::collections::HashMap::new(), |mut looper| {
        looper.stop_early();
        let (path, data) = looper.value().clone();
        looper.state_mut().insert(String::from_utf8(path).unwrap(), data);
        Ok::<_, ()>(looper)
    })
    .unwrap();
    assert_eq!(files.len(), 1, "{:#?}", files);
}

#[test]
fn test_tarball_errors() {
    assert_eq!(
        tarball_decompress(b"not a tarball", 0u32, |looper| Ok::<_, ()>(looper)),
        Err(TarballErr::Unreadable)
    );
    let tarball = tarball_compress(&[(b"a".to_vec(), b"1".to_vec()), (b"b".to_vec(), b"2".to_vec())]).unwrap();
    assert_eq!(
        tarball_decompress(&tarball, 0u32, |looper| if looper.value().0 == b"b" {
            Err("bad file")
        } else {
            Ok(looper)
        }),
        Err(TarballErr::Callback("bad file"))
    );
    // Files come in order, each seeing the state so far.
    let order = tarball_decompress(&tarball, Vec::new(), |mut looper| {
        let path = looper.value().0.clone();
        looper.state_mut().push(path);
        Ok::<_, ()>(looper)
    })
    .unwrap();
    assert_eq!(order, vec![b"a".to_vec(), b"b".to_vec()]);
}

use std::sync::Arc;

use bitbazaar::redis::batch::{batch_fire_step, BatchFireAction, BatchFireEvent, BatchFireStage};
use bitbazaar::redis::dlock::{
    all_unlocked, check_lock_ttl, check_not_expired, count_locked, server_confirmed,
    keep_trying_lock, lock_attempt_outcome, lock_id, lock_value_from_bytes, plan_extension,
    unique_lock_value, LockAttempt, RedisLockErr,
};
use bitbazaar::redis::fuzzy::{Nilcase, RedisFuzzy, RedisFuzzyUnwrap};
use bitbazaar::redis::json::{RedisJson, RedisJsonBorrowed};
use bitbazaar::redis::keys::{final_key, final_namespace, rate_limit_delay_ms};
use bitbazaar::redis::pubsub::{
    push_reaction, reuse_connection, should_unsubscribe, ChannelSubscription, PushKind,
    PushReaction,
};
use bitbazaar::redis::script::{LoadedScripts, RedisScript};
use bitbazaar::redis::temp_list::{
    decoded_uids, extension_uids, joined_recent, next_extension_ts, RedisTempList,
    RedisTempListItem, TempListWrite,
};

fn cmd_args(cmd: &redis::Cmd) -> Vec<Vec<u8>> {
    cmd.args_iter()
        .map(|arg| match arg {
            redis::Arg::Simple(bytes) => bytes.to_vec(),
            redis::Arg::Cursor => b"<cursor>".to_vec(),
        })
        .collect()
}

#[test]
fn redis_script_hash_and_commands() {
    let script = RedisScript::new("return 1");
    // sha1("return 1"), as redis computes it for SCRIPT LOAD:
    assert_eq!(script.hash(), "e0e1f9fabfc9d4800c877a703b823ac0578ff8db");
    assert_eq!(script.code(), "return 1");
    assert_eq!(script.hash().len(), 40);

    let load = script.load_cmd();
    assert_eq!(
        cmd_args(&load),
        vec![b"SCRIPT".to_vec(), b"LOAD".to_vec(), b"return 1".to_vec()]
    );

    let invoker = script
        .invoker()
        .key(vec![b"k1".to_vec()])
        .arg(vec![b"a1".to_vec(), b"a2".to_vec()])
        .key(vec![b"k2".to_vec()]);
    assert_eq!(invoker.script().hash(), script.hash());
    assert_eq!(
        cmd_args(&invoker.eval_cmd()),
        vec![
            b"EVALSHA".to_vec(),
            script.hash().as_bytes().to_vec(),
            b"2".to_vec(),
            b"k1".to_vec(),
            b"k2".to_vec(),
            b"a1".to_vec(),
            b"a2".to_vec(),
        ]
    );
    let bare = script.invoker();
    assert_eq!(
        cmd_args(&bare.eval_cmd()),
        vec![b"EVALSHA".to_vec(), script.hash().as_bytes().to_vec(), b"0".to_vec()]
    );
    // Same code, same script:
    assert_eq!(RedisScript::new("return 1"), script);
    assert_ne!(RedisScript::new("return 2").hash(), script.hash());
}

#[test]
fn dlock_ids_and_errors() {
    assert_eq!(lock_id("test_lock", "my_key"), b"test_lock:my_key".to_vec());
    let id1 = unique_lock_value();
    let id2 = unique_lock_value();
    assert_eq!(20, id1.len());
    assert_eq!(20, id2.len());
    assert_ne!(id1, id2);

    assert_eq!(check_lock_ttl(99), Err(RedisLockErr::UserErr));
    assert_eq!(check_lock_ttl(100), Ok(()));
    assert_eq!(check_not_expired(-1), Err(RedisLockErr::UserErr));
    assert_eq!(check_not_expired(0), Ok(()));
    assert_eq!(RedisLockErr::UserErr.message(), "User error");
    assert_eq!(RedisLockErr::Unavailable.message(), "Lock unavailable");
    assert_eq!(RedisLockErr::InternalErr.message(), "Internal error");
}

#[test]
fn dlock_attempt_outcomes() {
    // One server, quorum 1:
    assert_eq!(
        lock_attempt_outcome(1, 1, 1000, 12, 30),
        LockAttempt::Acquired { validity_ms: 958 }
    );
    assert_eq!(lock_attempt_outcome(0, 1, 1000, 12, 30), LockAttempt::Failed);
    assert_eq!(lock_attempt_outcome(1, 1, 100, 3, 97), LockAttempt::Expired);
    // Five servers need three:
    assert_eq!(lock_attempt_outcome(2, 5, 1000, 12, 0), LockAttempt::Failed);
    assert_eq!(
        lock_attempt_outcome(3, 5, 1000, 12, 0),
        LockAttempt::Acquired { validity_ms: 988 }
    );
    assert!(keep_trying_lock(Some(250), 100));
    assert!(!keep_trying_lock(Some(250), 250));
    assert!(!keep_trying_lock(None, 0));
    assert_eq!(count_locked(&vec![true, false, true]), 2);
    assert!(all_unlocked(&vec![true, true]));
    assert!(!all_unlocked(&vec![true, false]));
    assert!(all_unlocked(&vec![]));
    assert!(server_confirmed(Some(1)));
    assert!(!server_confirmed(Some(0)));
    assert!(!server_confirmed(None));
}

#[test]
fn dlock_extension_plan() {
    // Renew a second before expiry, with 5s while the future is young:
    assert_eq!(plan_extension(3000, 0), (2000, 5000));
    // Less than a second left: renew now.
    assert_eq!(plan_extension(500, 2999), (0, 5000));
    // Long running: extend by how long it has run.
    assert_eq!(plan_extension(-10, 7000), (0, 7000));
}

#[test]
fn redis_keys() {
    assert_eq!(final_namespace("pre", "ns"), "pre:ns");
    assert_eq!(final_key("pre", "ns", "k"), "pre:ns:k");
    assert_eq!(rate_limit_delay_ms(Some(150)), Some(150));
    assert_eq!(rate_limit_delay_ms(Some(0)), None);
    assert_eq!(rate_limit_delay_ms(Some(-5)), None);
    assert_eq!(rate_limit_delay_ms(None), None);
}

#[test]
fn fuzzy_unwrapping() {
    assert_eq!(RedisFuzzy::new(Some(5u32)).fuzzy_unwrap(), Some(5));
    assert_eq!(RedisFuzzy::<u32>::new(None).fuzzy_unwrap(), None);
    let nested: Option<Vec<RedisFuzzy<String>>> = Some(vec![
        RedisFuzzy::new(Some("a".to_string())),
        RedisFuzzy::new(None),
        RedisFuzzy::new(Some("c".to_string())),
    ]);
    assert_eq!(
        nested.fuzzy_unwrap(),
        Some(vec![Some("a".to_string()), None, Some("c".to_string())])
    );
    let tuple = (RedisFuzzy::new(Some(true)), 3i64, RedisFuzzy::<u8>::new(None));
    assert_eq!(tuple.fuzzy_unwrap(), (Some(true), 3i64, None));
    assert_eq!(().fuzzy_unwrap(), ());
    assert_eq!((RedisFuzzy::new(Some(1u8)),).fuzzy_unwrap(), (Some(1u8),));
    let empty: Vec<RedisFuzzy<i32>> = vec![];
    assert_eq!(empty.fuzzy_unwrap(), Vec::<Option<i32>>::new());
}

#[test]
fn nil_cases() {
    assert_eq!(<bool as Nilcase>::nilcase(), Some(false));
    assert_eq!(<i64 as Nilcase>::nilcase(), None);
    assert_eq!(<String as Nilcase>::nilcase(), None);
    assert_eq!(<Option<u8> as Nilcase>::nilcase(), Some(None));
    assert_eq!(<Vec<u8> as Nilcase>::nilcase(), Some(vec![]));
    assert_eq!(<RedisJson<u8> as Nilcase>::nilcase(), None);
    assert_eq!(
        <RedisFuzzy<bool> as Nilcase>::nilcase(),
        Some(RedisFuzzy::new(Some(false)))
    );
    assert_eq!(
        <RedisFuzzy<u32> as Nilcase>::nilcase(),
        Some(RedisFuzzy::new(None))
    );
}

#[test]
fn json_wrappers_hold_their_value() {
    let owned = RedisJson(vec![1, 2]);
    assert_eq!(owned.0, vec![1, 2]);
    let value = 5u8;
    let borrowed = RedisJsonBorrowed(&value);
    assert_eq!(*borrowed.0, 5);
    assert_eq!(format!("{:?}", owned), "RedisJson([1, 2])");
}

#[test]
fn pubsub_decisions() {
    let concrete = ChannelSubscription::Concrete("foo".to_string());
    let pattern = ChannelSubscription::Pattern("f*o".to_string());
    assert!(!concrete.is_pattern());
    assert!(pattern.is_pattern());
    assert_eq!(concrete.as_str(), "foo");
    assert_eq!(concrete.describe(), "'foo'");
    assert_eq!(pattern.describe(), "pattern 'f*o'");
    assert_eq!(push_reaction(PushKind::Message), PushReaction::DeliverToChannel);
    assert_eq!(push_reaction(PushKind::PMessage), PushReaction::DeliverToPattern);
    assert_eq!(push_reaction(PushKind::Disconnection), PushReaction::Reconnect);
    assert_eq!(push_reaction(PushKind::Subscribe), PushReaction::Ignore);
    assert_eq!(push_reaction(PushKind::PUnsubscribe), PushReaction::Ignore);
    assert_eq!(push_reaction(PushKind::Other), PushReaction::Report);
    assert!(should_unsubscribe(None));
    assert!(should_unsubscribe(Some(0)));
    assert!(!should_unsubscribe(Some(2)));
    assert!(reuse_connection(false, true));
    assert!(!reuse_connection(true, true));
    assert!(!reuse_connection(false, false));
}

#[test]
fn batch_fire_decisions() {
    assert_eq!(
        batch_fire_step(BatchFireStage::First, BatchFireEvent::PipelineRan { ok: true, missing_script: false }, 0),
        (BatchFireStage::Done, BatchFireAction::Succeed)
    );
    assert_eq!(
        batch_fire_step(BatchFireStage::First, BatchFireEvent::PipelineRan { ok: false, missing_script: true }, 2),
        (BatchFireStage::Reloading, BatchFireAction::LoadScripts)
    );
    // Missing script error with no scripts used: nothing to reload.
    assert_eq!(
        batch_fire_step(BatchFireStage::First, BatchFireEvent::PipelineRan { ok: false, missing_script: true }, 0),
        (BatchFireStage::Done, BatchFireAction::Fail)
    );
    assert_eq!(
        batch_fire_step(BatchFireStage::First, BatchFireEvent::PipelineRan { ok: false, missing_script: false }, 2),
        (BatchFireStage::Done, BatchFireAction::Fail)
    );
    assert_eq!(
        batch_fire_step(BatchFireStage::Reloading, BatchFireEvent::ScriptsLoaded { ok: true }, 2),
        (BatchFireStage::Rerun, BatchFireAction::RunAgain)
    );
    assert_eq!(
        batch_fire_step(BatchFireStage::Reloading, BatchFireEvent::ScriptsLoaded { ok: false }, 2),
        (BatchFireStage::Done, BatchFireAction::Fail)
    );
    assert_eq!(
        batch_fire_step(BatchFireStage::Rerun, BatchFireEvent::PipelineRan { ok: false, missing_script: true }, 2),
        (BatchFireStage::Done, BatchFireAction::Fail)
    );
}

#[test]
fn temp_list_config_and_timestamps() {
    let list = RedisTempList::new("templist_tests", "key".to_string(), 1000, 100);
    assert_eq!(list.namespace(), "templist_tests");
    assert_eq!(list.key(), "key");
    assert_eq!(list.list_inactive_ttl_ms(), 1000);
    assert_eq!(list.item_inactive_ttl_ms(), 100);
    assert_eq!(list.item_expiry_score(50), 150);
    assert_eq!(list.item_expiry_score(i64::MAX), i64::MAX);
    assert_eq!(next_extension_ts(10, 20), 20);
    assert_eq!(next_extension_ts(20, 20), 21);
    assert_eq!(next_extension_ts(i64::MAX, 5), i64::MAX);
    // Claimed timestamps never repeat:
    let a = list.claim_extension_ts(500);
    let b = list.claim_extension_ts(500);
    assert_eq!(a, 500);
    assert_eq!(b, 501);
}

#[test]
fn temp_list_item_holders() {
    let list = RedisTempList::new("ns", "k".to_string(), 1000, 100);
    let holder = RedisTempListItem::new(Some("u1".to_string()), Some(5), Some(&list));
    assert_eq!(holder.uid(), Some("u1"));
    assert_eq!(holder.item(), Some(&5));
    assert!(matches!(holder.update_action(), TempListWrite::SyncExisting));
    assert!(holder.deletes());
    let dummy: RedisTempListItem<i32> = RedisTempListItem::new_dummy();
    assert_eq!(dummy.uid(), None);
    assert_eq!(dummy.item(), None);
    assert!(matches!(dummy.update_action(), TempListWrite::Skip));
    assert!(matches!(dummy.replace_action(), TempListWrite::Skip));
    assert!(!dummy.deletes());
    let no_uid = RedisTempListItem::new(None, Some(1), Some(&list));
    assert!(matches!(no_uid.update_action(), TempListWrite::PushNew));

    let items = RedisTempListItem::vec_items(vec![holder, dummy, no_uid]);
    assert_eq!(items, vec![5, 1]);

    let pushed = RedisTempListItem::pushed(&list, Some(vec!["x".to_string()]), 9);
    assert_eq!(pushed.uid(), Some("x"));
    assert_eq!(pushed.into_item(), Some(9));
    let failed = RedisTempListItem::pushed(&list, None, 9);
    assert_eq!(failed.item(), None);

    let extended = RedisTempListItem::extended(
        &list,
        Some(vec!["a".to_string(), "b".to_string()]),
        vec![1, 2],
    );
    assert_eq!(extended.len(), 2);
    assert_eq!(extended[1].uid(), Some("b"));
    assert_eq!(extended[1].item(), Some(&2));
    assert!(RedisTempListItem::extended(&list, None, vec![1, 2]).is_empty());

    let fetched = RedisTempListItem::for_fetched(
        &list,
        vec![Some(1), None, Some(3)],
        vec!["a".to_string(), "b".to_string(), "c".to_string()],
    );
    assert_eq!(fetched.len(), 2);
    assert_eq!(fetched[1].uid(), Some("c"));
    assert!(Arc::ptr_eq(fetched[0].tmp_list().unwrap(), &list));
}

#[test]
fn temp_list_recent_reads() {
    let pairs = decoded_uids(vec![
        (Some("a".to_string()), 3),
        (None, 2),
        (Some("c".to_string()), 1),
    ]);
    assert_eq!(pairs, vec![("a".to_string(), 3), ("c".to_string(), 1)]);
    let reads = joined_recent(vec![Some(10), None], pairs);
    assert_eq!(reads, vec![(3, "a".to_string(), 10)]);
}

#[test]
fn test_extension_uids_prefix_ts_and_index() {
    let uids = extension_uids(1700, vec!["a".to_string(), "b-c".to_string()]);
    assert_eq!(uids, vec!["1700-0-a".to_string(), "1700-1-b-c".to_string()]);
    let uids = extension_uids(-12, vec!["x".to_string()]);
    assert_eq!(uids, vec!["-12-0-x".to_string()]);
    let uids = extension_uids(i64::MIN, vec!["y".to_string()]);
    assert_eq!(uids, vec![format!("{}-0-y", i64::MIN)]);
    assert!(extension_uids(5, vec![]).is_empty());
}

#[test]
fn test_new_extension_uids_distinct_and_timestamped() {
    let list = RedisTempList::new("ns", "k".to_string(), 1000, 100);
    let uids = list.new_extension_uids(5000, 12);
    assert_eq!(uids.len(), 12);
    for (i, uid) in uids.iter().enumerate() {
        assert!(uid.starts_with(&format!("5000-{}-", i)));
    }
    let mut sorted = uids.clone();
    sorted.sort();
    sorted.dedup();
    assert_eq!(sorted.len(), 12);
    // The same millisecond again: the timestamp moves on by one.
    let later = list.new_extension_uids(5000, 1);
    assert!(later[0].starts_with("5001-0-"));
    // A later clock reading is taken as it is.
    let latest = list.new_extension_uids(9000, 1);
    assert!(latest[0].starts_with("9000-0-"));
}

#[test]
fn test_lock_value_from_bytes_keeps_bytes() {
    let mut bytes = [0u8; 20];
    for (i, b) in bytes.iter_mut().enumerate() {
        *b = i as u8 * 3;
    }
    assert_eq!(lock_value_from_bytes(bytes), bytes.to_vec());
}

#[test]
fn test_eval_cmd_loaded_picks_hash_or_source() {
    let script = RedisScript::new("return 1");
    let invoker = script.invoker().key(vec![b"k".to_vec()]).arg(vec![b"a".to_vec()]);
    assert_eq!(
        cmd_args(&invoker.eval_cmd_loaded(true)),
        vec![b"EVALSHA".to_vec(), script.hash().as_bytes().to_vec(), b"1".to_vec(), b"k".to_vec(), b"a".to_vec()]
    );
    assert_eq!(
        cmd_args(&invoker.eval_cmd_loaded(false)),
        vec![b"EVAL".to_vec(), b"return 1".to_vec(), b"1".to_vec(), b"k".to_vec(), b"a".to_vec()]
    );
}

#[test]
fn test_loaded_scripts_registry() {
    let mut loaded = LoadedScripts::new();
    assert!(!loaded.contains("abc"));
    loaded.mark_loaded("abc");
    loaded.mark_loaded("abc");
    assert!(loaded.contains("abc"));
    assert!(!loaded.contains("abd"));
}

#[test]
fn test_batch_success_marks_scripts_loaded() {
    let ran_ok = BatchFireEvent::PipelineRan { ok: true, missing_script: false };
    assert_eq!(
        batch_fire_step(BatchFireStage::First, ran_ok, 2),
        (BatchFireStage::Done, BatchFireAction::SucceedMarkingLoaded)
    );
    assert_eq!(
        batch_fire_step(BatchFireStage::Rerun, ran_ok, 1),
        (BatchFireStage::Done, BatchFireAction::SucceedMarkingLoaded)
    );
    assert_eq!(
        batch_fire_step(BatchFireStage::First, ran_ok, 0),
        (BatchFireStage::Done, BatchFireAction::Succeed)
    );
}

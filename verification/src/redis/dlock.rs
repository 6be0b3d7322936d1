use vstd::prelude::*;
use vstd::utf8::encode_utf8;

verus! {

/// The shortest time to live a lock may be given.
pub const MIN_LOCK_TTL_MS: u64 = 100;

/// Retries wait a random time below this many milliseconds.
pub const LOCK_RETRY_DELAY_MS: u32 = 200;

/// How many bytes a lock's random value holds.
pub const LOCK_VALUE_LEN: usize = 20;

/// Errors that can occur when trying to lock a resource.
#[derive(Debug, Clone, Copy, PartialEq, Eq)]
pub enum RedisLockErr {
    /// When the lock is held by someone else.
    Unavailable,
    /// When the user has done something wrong.
    UserErr,
    /// Internal error.
    InternalErr,
}

impl RedisLockErr {
    /// The error's message.
    pub fn message(&self) -> (msg: &'static str)
        ensures
            msg@ == match self {
                RedisLockErr::UserErr => "User error"@,
                RedisLockErr::Unavailable => "Lock unavailable"@,
                RedisLockErr::InternalErr => "Internal error"@,
            },
    {
        match self {
            RedisLockErr::UserErr => "User error",
            RedisLockErr::Unavailable => "Lock unavailable",
            RedisLockErr::InternalErr => "Internal error",
        }
    }
}

/// A time to live of `ttl_ms` may be asked for: it is refused as a user error when
/// below [`MIN_LOCK_TTL_MS`].
pub fn check_lock_ttl(ttl_ms: u64) -> (r: Result<(), RedisLockErr>)
    ensures
        r is Ok <==> ttl_ms >= MIN_LOCK_TTL_MS,
        r is Err ==> r == Err::<(), RedisLockErr>(RedisLockErr::UserErr),
{
    if ttl_ms < MIN_LOCK_TTL_MS {
        Err(RedisLockErr::UserErr)
    } else {
        Ok(())
    }
}

/// The redis key a lock is held under: the UTF-8 bytes of `"{namespace}:{lock_key}"`.
pub open spec fn lock_key_bytes(namespace: Seq<char>, lock_key: Seq<char>) -> Seq<u8> {
    encode_utf8(namespace) + seq![0x3Au8] + encode_utf8(lock_key)
}

/// The resource to lock, a combination of the namespace with the lock key.
pub fn lock_id(namespace: &str, lock_key: &str) -> (id: Vec<u8>)
    ensures
        id@ == lock_key_bytes(namespace@, lock_key@),
{
    let mut id: Vec<u8> = Vec::new();
    let ns = namespace.as_bytes();
    let key = lock_key.as_bytes();
    let mut i: usize = 0;
    while i < ns.len()
        invariant
            i <= ns@.len(),
            id@ == ns@.take(i as int),
        decreases ns.len() - i,
    {
        id.push(ns[i]);
        i = i + 1;
        assert(id@ =~= ns@.take(i as int));
    }
    id.push(0x3Au8);
    let ghost head = id@;
    let mut j: usize = 0;
    while j < key.len()
        invariant
            j <= key@.len(),
            id@ == head + key@.take(j as int),
        decreases key.len() - j,
    {
        id.push(key[j]);
        j = j + 1;
        assert(id@ =~= head + key@.take(j as int));
    }
    assert(ns@.take(ns@.len() as int) =~= ns@);
    assert(key@.take(key@.len() as int) =~= key@);
    id
}

/// Fills a buffer of [`LOCK_VALUE_LEN`] bytes from `rand::thread_rng`: nothing is promised of
/// the bytes, they are random.
#[verifier::external_body]
fn random_lock_bytes() -> (bytes: [u8; 20]) {
    let mut buf = [0u8; 20];
    rand::RngCore::fill_bytes(&mut rand::thread_rng(), &mut buf);
    buf
}

/// The lock value made of drawn bytes: the same bytes, in order.
pub fn lock_value_from_bytes(bytes: [u8; 20]) -> (value: Vec<u8>)
    ensures
        value@ == bytes@,
{
    let mut value: Vec<u8> = Vec::new();
    let mut i: usize = 0;
    proof {
        vstd::array::array_len_matches_n(&bytes);
    }
    while i < LOCK_VALUE_LEN
        invariant
            i <= LOCK_VALUE_LEN,
            bytes@.len() == LOCK_VALUE_LEN,
            value@ == bytes@.take(i as int),
        decreases LOCK_VALUE_LEN - i,
    {
        value.push(bytes[i]);
        i = i + 1;
        assert(value@ =~= bytes@.take(i as int));
    }
    assert(bytes@.take(LOCK_VALUE_LEN as int) =~= bytes@);
    value
}

/// A fresh random value identifying one holder of a lock: the [`LOCK_VALUE_LEN`] bytes
/// drawn from the random source.
pub fn unique_lock_value() -> (value: Vec<u8>)
    ensures
        value@.len() == LOCK_VALUE_LEN,
{
    let bytes = random_lock_bytes();
    proof {
        vstd::array::array_len_matches_n(&bytes);
    }
    lock_value_from_bytes(bytes)
}

/// A lock needs a majority of the servers: N/2+1, with N being the number of given
/// redis instances.
pub open spec fn lock_quorum(n_servers: u32) -> int {
    n_servers / 2 + 1
}

/// Law: the quorum is a strict majority of the servers: more than half of them, and
/// the smallest such number. So two holders never both reach it on servers that each
/// locked for only one of them.
pub proof fn lemma_quorum_strict_majority(n_servers: u32, a: int, b: int)
    ensures
        2 * lock_quorum(n_servers) > n_servers,
        2 * (lock_quorum(n_servers) - 1) <= n_servers,
        a >= lock_quorum(n_servers) && b >= lock_quorum(n_servers) ==> a + b > n_servers,
{
}

/// How many of the servers reported success.
pub open spec fn count_true(results: Seq<bool>) -> nat
    decreases results.len(),
{
    if results.len() == 0 {
        0
    } else {
        count_true(results.drop_last()) + if results.last() {
            1nat
        } else {
            0nat
        }
    }
}

/// How many of the servers reported success.
pub fn count_locked(results: &Vec<bool>) -> (n: usize)
    ensures
        n == count_true(results@),
{
    let mut n: usize = 0;
    let mut i: usize = 0;
    while i < results.len()
        invariant
            i <= results@.len(),
            n == count_true(results@.take(i as int)),
            n <= i,
        decreases results.len() - i,
    {
        assert(results@.take((i + 1) as int).drop_last() =~= results@.take(i as int));
        if results[i] {
            n = n + 1;
        }
        i = i + 1;
    }
    assert(results@.take(i as int) =~= results@);
    n
}

/// Whether every server let go of the lock.
pub fn all_unlocked(results: &Vec<bool>) -> (all: bool)
    ensures
        all <==> forall|i: int| 0 <= i < results@.len() ==> #[trigger] results@[i],
{
    let mut i: usize = 0;
    while i < results.len()
        invariant
            i <= results@.len(),
            forall|j: int| 0 <= j < i ==> #[trigger] results@[j],
        decreases results.len() - i,
    {
        if !results[i] {
            return false;
        }
        i = i + 1;
    }
    true
}

/// What one round of locking (or extending) on every server comes to.
#[derive(Debug, Clone, Copy, PartialEq, Eq)]
pub enum LockAttempt {
    /// The time to live ran out while locking: the lock is unavailable, no retry.
    Expired,
    /// A quorum was reached in time: the lock holds for this many more milliseconds.
    Acquired { validity_ms: u64 },
    /// No quorum: let go of what was taken, and maybe try again.
    Failed,
}

/// The outcome of a round of locking in which `n_locked` of `n_servers` servers agreed,
/// with a time to live of `ttl_ms`, an allowance of `drift_ms` for clock drift, and
/// `elapsed_ms` spent: the time to live must outlast the drift and the time spent, and
/// then the lock is held when a quorum agreed, for what is left of the time to live.
pub fn lock_attempt_outcome(
    n_locked: usize,
    n_servers: u32,
    ttl_ms: u64,
    drift_ms: u64,
    elapsed_ms: u64,
) -> (r: LockAttempt)
    ensures
        ttl_ms <= drift_ms + elapsed_ms ==> r == LockAttempt::Expired,
        ttl_ms > drift_ms + elapsed_ms && n_locked >= lock_quorum(n_servers) ==> r
            == (LockAttempt::Acquired { validity_ms: (ttl_ms - drift_ms - elapsed_ms) as u64 }),
        ttl_ms > drift_ms + elapsed_ms && n_locked < lock_quorum(n_servers) ==> r
            == LockAttempt::Failed,
        r is Acquired ==> 2 * n_locked > n_servers,
        2 * n_locked <= n_servers ==> !(r is Acquired),
        ttl_ms > drift_ms + elapsed_ms && 2 * n_locked > n_servers ==> r is Acquired,
{
    if (ttl_ms as u128) <= (drift_ms as u128) + (elapsed_ms as u128) {
        return LockAttempt::Expired;
    }
    let validity_ms = ttl_ms - drift_ms - elapsed_ms;
    let quorum: u64 = (n_servers / 2) as u64 + 1;
    if (n_locked as u64) >= quorum && validity_ms > 0 {
        LockAttempt::Acquired { validity_ms }
    } else {
        LockAttempt::Failed
    }
}

/// Whether to try locking again after a failed round: only while the time spent is
/// still below what the caller was willing to wait (nothing when it would not wait).
pub fn keep_trying_lock(wait_up_to_ms: Option<u64>, elapsed_ms: u64) -> (again: bool)
    ensures
        again <==> match wait_up_to_ms {
            Some(w) => w > elapsed_ms,
            None => false,
        },
{
    match wait_up_to_ms {
        Some(w) => w > elapsed_ms,
        None => false,
    }
}

/// Whether one server confirmed a lock script (an extension or an unlock): it answered 1.
pub fn server_confirmed(answer: Option<i32>) -> (ok: bool)
    ensures
        ok <==> answer == Some(1i32),
{
    match answer {
        Some(v) => v == 1,
        None => false,
    }
}

/// A held lock that has already expired may not be held for a future: a user error.
pub fn check_not_expired(expires_in_ms: i64) -> (r: Result<(), RedisLockErr>)
    ensures
        r is Ok <==> expires_in_ms >= 0,
        r is Err ==> r == Err::<(), RedisLockErr>(RedisLockErr::UserErr),
{
    if expires_in_ms < 0 {
        Err(RedisLockErr::UserErr)
    } else {
        Ok(())
    }
}

/// How long the extender sleeps before renewing: until a second before expiry, or not
/// at all when less than a second is left.
pub open spec fn extension_wait_ms(expires_in_ms: i64) -> int {
    if expires_in_ms > 1000 {
        expires_in_ms - 1000
    } else {
        0
    }
}

/// The new time to live of a renewal: 5 seconds while the future has run under 3 seconds,
/// then as long as it has run so far, so renewals thin out for long-running futures.
pub open spec fn extension_ttl_ms(running_ms: i64) -> int {
    if running_ms < 3000 {
        5000
    } else {
        running_ms as int
    }
}

/// The extender's next move while a lock is held for a future: how long to sleep, then
/// the time to live to renew with.
pub fn plan_extension(expires_in_ms: i64, running_ms: i64) -> (plan: (i64, i64))
    ensures
        plan.0 == extension_wait_ms(expires_in_ms),
        plan.1 == extension_ttl_ms(running_ms),
        plan.0 >= 0,
        plan.1 >= MIN_LOCK_TTL_MS,
{
    let wait = if expires_in_ms > 1000 {
        expires_in_ms - 1000
    } else {
        0
    };
    let ttl = if running_ms < 3000 {
        5000
    } else {
        running_ms
    };
    (wait, ttl)
}

} // verus!

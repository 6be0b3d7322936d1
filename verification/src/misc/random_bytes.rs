use vstd::prelude::*;

verus! {

/// One step of the byte generator's linear congruential sequence.
pub open spec fn lcg_next(seed: u64) -> u64 {
    seed.wrapping_mul(6364136223846793005u64).wrapping_add(1u64)
}

/// The generator's state after `k` steps from `seed`.
pub open spec fn lcg_state(seed: u64, k: nat) -> u64
    decreases k,
{
    if k == 0 {
        seed
    } else {
        lcg_next(lcg_state(seed, (k - 1) as nat))
    }
}

/// The `n` bytes generated from `seed`: after each step, bits 32..40 of the state.
pub open spec fn lcg_bytes(seed: u64, n: nat) -> Seq<u8> {
    Seq::new(n, |i: int| (lcg_state(seed, (i + 1) as nat) >> 32u64) as u8)
}

#[verifier::external_type_specification]
#[verifier::external_body]
pub struct ExSystemTime(std::time::SystemTime);

/// Calls `SystemTime::now` (std): the machine's clock, so nothing is promised of it.
#[verifier::external_body]
fn system_now() -> std::time::SystemTime {
    std::time::SystemTime::now()
}

/// Calls `SystemTime::duration_since` (std) with `UNIX_EPOCH`; std's `Err` (a time before
/// 1970) becomes `None`. Nothing is promised of the span.
#[verifier::external_body]
fn since_unix_epoch(t: std::time::SystemTime) -> Option<std::time::Duration> {
    match t.duration_since(std::time::UNIX_EPOCH) {
        Ok(d) => Some(d),
        Err(_) => None,
    }
}

/// Calls `Duration::as_secs` (std): the span's whole seconds. The span is opaque here,
/// so nothing is promised of the number.
#[verifier::external_body]
fn whole_secs(d: std::time::Duration) -> u64 {
    d.as_secs()
}

/// The `size` bytes generated from `seed`, see [`lcg_bytes`].
pub fn lcg_random_bytes(seed: u64, size: usize) -> (data: Vec<u8>)
    ensures
        data@ == lcg_bytes(seed, size as nat),
{
    let mut data: Vec<u8> = Vec::new();
    let mut state = seed;
    let mut i: usize = 0;
    while i < size
        invariant
            i <= size,
            state == lcg_state(seed, i as nat),
            data@ == lcg_bytes(seed, i as nat),
        decreases size - i,
    {
        state = state.wrapping_mul(6364136223846793005u64).wrapping_add(1u64);
        data.push((state >> 32u64) as u8);
        i = i + 1;
        assert(data@ =~= lcg_bytes(seed, i as nat));
    }
    data
}

/// Generate random bytes using the system's random number generator.
/// Insecure, but very fast, useful for testing random binary data.
///
/// Seeded from the current unix time in seconds (0 if the clock reads before 1970).
pub fn random_bytes_insecure_speedy(size: usize) -> (data: Vec<u8>)
    ensures
        exists|seed: u64| data@ == lcg_bytes(seed, size as nat),
        data@.len() == size,
{
    let seed = match since_unix_epoch(system_now()) {
        Some(span) => whole_secs(span),
        None => 0,
    };
    lcg_random_bytes(seed, size)
}

} // verus!

use vstd::prelude::*;

verus! {

/// A periodic updater's check at `now_ms` (milliseconds since the epoch), the last update
/// having been at `last_ms` (0 before the first): the time since the last update, and
/// whether the update is due, i.e. at least `every_ms` has passed.
pub fn periodic_update_due(now_ms: i64, last_ms: i64, every_ms: i64) -> (r: (i128, bool))
    ensures
        r.0 == now_ms - last_ms,
        r.1 <==> now_ms - last_ms >= every_ms,
{
    let elapsed: i128 = (now_ms as i128) - (last_ms as i128);
    (elapsed, elapsed >= every_ms as i128)
}

/// Whether refreshable data must be fetched again: another node changed it (its mutate id
/// differs from the one last seen), or it is older than the forced refresh interval.
pub fn refresh_due(mutate_id_changed: bool, now_ms: u64, last_updated_ms: u64, force_every_ms: u64) -> (due:
    bool)
    requires
        !mutate_id_changed ==> now_ms >= last_updated_ms,
    ensures
        due <==> mutate_id_changed || now_ms - last_updated_ms > force_every_ms,
{
    mutate_id_changed || now_ms - last_updated_ms > force_every_ms
}

/// Whether the mutate id read from redis shows a change by another node: only when one
/// was read and it differs from the one last seen.
pub fn mutate_id_changed(read: Option<u64>, last_seen: u64) -> (changed: bool)
    ensures
        changed <==> (read matches Some(id) && id != last_seen),
{
    match read {
        Some(id) => id != last_seen,
        None => false,
    }
}

} // verus!

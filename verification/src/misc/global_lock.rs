use vstd::prelude::*;
use vstd::string::StrSliceExecFns;

verus! {

/// The prefix of every host-wide lock's name.
pub const HOST_LOCK_PREFIX: &'static str = "rs_bitbazaar_global_lock_";

/// The name a host-wide lock is created under: the prefix, then the lock id.
pub fn final_host_lock_id(lock_id: &str) -> (name: String)
    ensures
        name@ == HOST_LOCK_PREFIX@ + lock_id@,
{
    let mut name = String::from_str(HOST_LOCK_PREFIX);
    name.append(lock_id);
    name
}

/// A process-wide lock's entry can be forgotten once its holder is done when no one else
/// is waiting on it: only the map's handle and the holder's are left.
pub fn lock_entry_unused(handles: usize) -> (unused: bool)
    ensures
        unused <==> handles == 2,
{
    handles == 2
}

} // verus!

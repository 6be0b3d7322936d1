use vstd::prelude::*;
use vstd::string::StrSliceExecFns;

verus! {

/// A namespace under a connection's prefix: `"{prefix}:{namespace}"`.
pub open spec fn spec_final_namespace(prefix: Seq<char>, namespace: Seq<char>) -> Seq<char> {
    prefix + ":"@ + namespace
}

/// Redis keys are all prefixed, use this to finalise a namespace outside of built in
/// commands, e.g. for use in a custom script.
pub fn final_namespace(prefix: &str, namespace: &str) -> (ns: String)
    ensures
        ns@ == spec_final_namespace(prefix@, namespace@),
{
    let mut ns = String::from_str(prefix);
    ns.append(":");
    ns.append(namespace);
    ns
}

/// Redis keys are all prefixed, use this to finalise a key outside of built in commands,
/// e.g. for use in a custom script: `"{prefix}:{namespace}:{key}"`.
pub fn final_key(prefix: &str, namespace: &str, key: &str) -> (k: String)
    ensures
        k@ == spec_final_namespace(prefix@, namespace@) + ":"@ + key@,
{
    let mut k = final_namespace(prefix, namespace);
    k.append(":");
    k.append(key);
    k
}

/// What the rate limiter's script answer means: a positive number of milliseconds to
/// wait before retrying, else (none, zero or negative, or no answer) go ahead.
pub fn rate_limit_delay_ms(answer: Option<i64>) -> (delay: Option<i64>)
    ensures
        delay == match answer {
            Some(ms) => if ms > 0 {
                Some(ms)
            } else {
                None
            },
            None => None,
        },
{
    match answer {
        Some(ms) => if ms > 0 {
            Some(ms)
        } else {
            None
        },
        None => None,
    }
}

} // verus!

use std::sync::atomic::AtomicI64;
use std::sync::Arc;
use vstd::prelude::*;
use vstd::string::StrSliceExecFns;

use crate::encoding::{
    decimal_chars, decimal_string, lemma_decimal_chars_injective, lemma_decimal_chars_no_dash,
    signed_decimal_chars, signed_decimal_string,
};

verus! {

/// Calls `Arc::clone` (std); trusted to give a pointer to the same value, as std
/// documents (a new reference to the same allocation).
#[verifier::external_body]
fn share<T>(this: &Arc<T>) -> (res: Arc<T>)
    ensures
        res == *this,
{
    Arc::clone(this)
}

/// Calls `uuid::Uuid::new_v4` and renders the uuid as text through its `Display`.
/// The value is random, so nothing is promised of it.
#[verifier::external_body]
fn uuid_v4_string() -> String {
    uuid::Uuid::new_v4().to_string()
}

/// The key of the item at `index` of an extension made at `ts`:
/// `"{ts}-{index}-{suffix}"`. The timestamp and index come first, so that later items
/// sort after earlier ones among items with equal scores.
pub open spec fn spec_extension_uid(ts: int, index: int, suffix: Seq<char>) -> Seq<char> {
    signed_decimal_chars(ts) + seq!['-'] + decimal_chars(index as nat) + seq!['-'] + suffix
}

/// `uids` are the keys of an extension made at `ts`, one per suffix, in order.
pub open spec fn are_extension_uids(uids: Seq<String>, ts: int, suffixes: Seq<Seq<char>>) -> bool {
    &&& uids.len() == suffixes.len()
    &&& forall|i: int| 0 <= i < uids.len() ==> #[trigger] uids[i]@ == spec_extension_uid(ts, i, suffixes[i])
}

/// Two items of one extension never share a key, whatever their suffixes.
pub proof fn lemma_extension_uid_distinct(ts: int, i: int, j: int, a: Seq<char>, b: Seq<char>)
    requires
        0 <= i,
        0 <= j,
        i != j,
    ensures
        spec_extension_uid(ts, i, a) != spec_extension_uid(ts, j, b),
{
    let p = signed_decimal_chars(ts) + seq!['-'];
    let di = decimal_chars(i as nat);
    let dj = decimal_chars(j as nat);
    lemma_decimal_chars_no_dash(i as nat);
    lemma_decimal_chars_no_dash(j as nat);
    let u = spec_extension_uid(ts, i, a);
    let v = spec_extension_uid(ts, j, b);
    assert(u =~= p + di + seq!['-'] + a);
    assert(v =~= p + dj + seq!['-'] + b);
    let start = p.len() as int;
    if di.len() < dj.len() {
        assert(u[start + di.len()] == '-');
        assert(v[start + di.len()] == dj[di.len() as int]);
    } else if di.len() > dj.len() {
        assert(v[start + dj.len()] == '-');
        assert(u[start + dj.len()] == di[dj.len() as int]);
    } else if u == v {
        assert(u.subrange(start, start + di.len()) =~= di);
        assert(v.subrange(start, start + dj.len()) =~= dj);
        lemma_decimal_chars_injective(i as nat, j as nat);
    }
}

/// The keys of one extension are pairwise distinct.
pub proof fn lemma_extension_uids_distinct(uids: Seq<String>, ts: int, suffixes: Seq<Seq<char>>)
    requires
        are_extension_uids(uids, ts, suffixes),
    ensures
        forall|i: int, j: int|
            0 <= i < uids.len() && 0 <= j < uids.len() && i != j ==> #[trigger] uids[i]@ != #[trigger] uids[j]@,
{
    assert forall|i: int, j: int|
        0 <= i < uids.len() && 0 <= j < uids.len() && i != j implies #[trigger] uids[i]@ != #[trigger] uids[j]@ by {
        lemma_extension_uid_distinct(ts, i, j, suffixes[i], suffixes[j]);
    }
}

/// The keys for the items of an extension made at `ts`, the one at index `i` ending in
/// `suffixes[i]`.
pub fn extension_uids(ts: i64, suffixes: Vec<String>) -> (uids: Vec<String>)
    ensures
        uids@.len() == suffixes@.len(),
        forall|i: int| 0 <= i < uids@.len() ==> #[trigger] uids@[i]@ == spec_extension_uid(ts as int, i, suffixes@[i]@),
{
    let mut uids: Vec<String> = Vec::new();
    let mut i: usize = 0;
    while i < suffixes.len()
        invariant
            i <= suffixes@.len(),
            uids@.len() == i,
            forall|k: int| 0 <= k < i ==> #[trigger] uids@[k]@ == spec_extension_uid(ts as int, k, suffixes@[k]@),
        decreases suffixes@.len() - i,
    {
        let mut uid = signed_decimal_string(ts);
        uid.append("-");
        let index = decimal_string(i as u64);
        uid.append(index.as_str());
        uid.append("-");
        uid.append(suffixes[i].as_str());
        proof {
            reveal_strlit("-");
        }
        assert(uid@ =~= spec_extension_uid(ts as int, i as int, suffixes@[i as int]@));
        uids.push(uid);
        i = i + 1;
    }
    uids
}

/// Change events sent through a redis pubsub channel.
pub enum RedisTempListChangeEvent {
    /// New items added with these uids.
    Extended(Vec<String>),
    /// Item updated with this uid.
    Updated(String),
    /// Items removed with these uids.
    Removed(Vec<String>),
    /// All items cleared.
    Clear,
}

/// Connect up to a magic redis list that:
/// - Has pubsub enabled on all modifications.
/// - Has an expiry on the list itself, resetting on each read or write. (each change lives again for `list_inactive_ttl` time)
/// - Each item in the list has it's own expiry, so the list is always clean of old items.
/// - Each item has a generated unique key, this key can be used to update or delete specific items directly.
/// - Returned items are returned newest/last-updated to oldest
///
/// This value holds the list's configuration; the redis traffic is driven from outside.
pub struct RedisTempList {
    /// The namespace of the list in redis.
    namespace: String,
    /// The key of the list in redis.
    key: String,
    /// If the list hasn't been read or written to in this time (ms), it will be expired.
    list_inactive_ttl_ms: i64,
    /// If an item hasn't been read or written to in this time (ms), it will be expired.
    item_inactive_ttl_ms: i64,
    /// Used to prevent overlap between push() and extend() calls using the same ts by accident.
    last_extension_ts_millis: Arc<AtomicI64>,
}

/// The timestamp an extension uses: the current time, unless that would not be later
/// than the last extension's, in which case one millisecond after the last one
/// (held at `i64::MAX`, which nothing follows).
pub open spec fn spec_next_extension_ts(last: i64, now: i64) -> i64 {
    if now <= last {
        if last < i64::MAX {
            (last + 1) as i64
        } else {
            last
        }
    } else {
        now
    }
}

/// See [`spec_next_extension_ts`].
pub fn next_extension_ts(last: i64, now: i64) -> (ts: i64)
    ensures
        ts == spec_next_extension_ts(last, now),
{
    if now <= last {
        if last < i64::MAX {
            last + 1
        } else {
            last
        }
    } else {
        now
    }
}

/// The expiry score of an item touched at `now`: `now + ttl`, clamped to the `i64` range.
pub open spec fn spec_expiry_score(now: i64, ttl: i64) -> i64 {
    if now + ttl > i64::MAX {
        i64::MAX
    } else if now + ttl < i64::MIN {
        i64::MIN
    } else {
        (now + ttl) as i64
    }
}

impl RedisTempList {
    /// The list's namespace.
    pub closed spec fn spec_namespace(&self) -> Seq<char> {
        self.namespace@
    }

    /// The list's key.
    pub closed spec fn spec_key(&self) -> Seq<char> {
        self.key@
    }

    /// The list's inactivity time to live, in milliseconds.
    pub closed spec fn spec_list_ttl_ms(&self) -> i64 {
        self.list_inactive_ttl_ms
    }

    /// The items' inactivity time to live, in milliseconds.
    pub closed spec fn spec_item_ttl_ms(&self) -> i64 {
        self.item_inactive_ttl_ms
    }

    /// Create/connect to a managed list entry in redis that will:
    /// - Auto expire on inactivity
    /// - Return items newest to oldest
    /// - Items are set with their own ttl, so the members themselves expire separate from the full list
    pub fn new(
        namespace: &str,
        key: String,
        list_inactive_ttl_ms: i64,
        item_inactive_ttl_ms: i64,
    ) -> (list: Arc<Self>)
        ensures
            list.spec_namespace() == namespace@,
            list.spec_key() == key@,
            list.spec_list_ttl_ms() == list_inactive_ttl_ms,
            list.spec_item_ttl_ms() == item_inactive_ttl_ms,
    {
        Arc::new(
            RedisTempList {
                namespace: String::from_str(namespace),
                key,
                list_inactive_ttl_ms,
                item_inactive_ttl_ms,
                last_extension_ts_millis: Arc::new(AtomicI64::new(0)),
            },
        )
    }

    /// The namespace of the list in redis.
    pub fn namespace(&self) -> (ns: &str)
        ensures
            ns@ == self.spec_namespace(),
    {
        self.namespace.as_str()
    }

    /// The key of the list in redis.
    pub fn key(&self) -> (key: &str)
        ensures
            key@ == self.spec_key(),
    {
        self.key.as_str()
    }

    /// The list's inactivity time to live, in milliseconds.
    pub fn list_inactive_ttl_ms(&self) -> (ms: i64)
        ensures
            ms == self.spec_list_ttl_ms(),
    {
        self.list_inactive_ttl_ms
    }

    /// The items' inactivity time to live, in milliseconds.
    pub fn item_inactive_ttl_ms(&self) -> (ms: i64)
        ensures
            ms == self.spec_item_ttl_ms(),
    {
        self.item_inactive_ttl_ms
    }

    /// The score (expiry timestamp) of an item written at `now_ms`.
    pub fn item_expiry_score(&self, now_ms: i64) -> (score: i64)
        ensures
            score == spec_expiry_score(now_ms, self.spec_item_ttl_ms()),
    {
        let ttl = self.item_inactive_ttl_ms;
        if ttl >= 0 {
            if now_ms > i64::MAX - ttl {
                i64::MAX
            } else {
                now_ms + ttl
            }
        } else {
            if now_ms < i64::MIN - ttl {
                i64::MIN
            } else {
                now_ms + ttl
            }
        }
    }

    /// Take the timestamp for a new extension at `now_ms`, never reusing the last one
    /// (see [`spec_next_extension_ts`]), and remember it for the next extension.
    ///
    /// Other holders of the list may extend it concurrently, so the last timestamp seen
    /// here is whatever the shared cell held.
    pub fn claim_extension_ts(&self, now_ms: i64) -> (ts: i64)
        ensures
            ts >= now_ms,
            exists|last: i64| ts == spec_next_extension_ts(last, now_ms),
    {
        let last = self.last_extension_ts_millis.load(std::sync::atomic::Ordering::Relaxed);
        let ts = next_extension_ts(last, now_ms);
        self.last_extension_ts_millis.store(ts, std::sync::atomic::Ordering::Relaxed);
        ts
    }

    /// Fresh keys for `count` new items of an extension made at `now_ms` (milliseconds
    /// since the epoch): the extension's timestamp is claimed (see
    /// [`Self::claim_extension_ts`]) and each key ends in a random uuid. The keys are
    /// pairwise distinct.
    pub fn new_extension_uids(&self, now_ms: i64, count: usize) -> (uids: Vec<String>)
        ensures
            uids@.len() == count,
            exists|last: i64, suffixes: Seq<Seq<char>>|
                #[trigger] are_extension_uids(uids@, spec_next_extension_ts(last, now_ms) as int, suffixes),
            forall|i: int, j: int|
                0 <= i < count && 0 <= j < count && i != j ==> #[trigger] uids@[i]@ != #[trigger] uids@[j]@,
    {
        let ts = self.claim_extension_ts(now_ms);
        let mut suffixes: Vec<String> = Vec::new();
        let mut i: usize = 0;
        while i < count
            invariant
                i <= count,
                suffixes@.len() == i,
            decreases count - i,
        {
            suffixes.push(uuid_v4_string());
            i = i + 1;
        }
        let ghost suffix_chars = suffixes@.map_values(|x: String| x@);
        let uids = extension_uids(ts, suffixes);
        proof {
            let last = choose|last: i64| ts == spec_next_extension_ts(last, now_ms);
            assert(are_extension_uids(uids@, spec_next_extension_ts(last, now_ms) as int, suffix_chars));
            lemma_extension_uids_distinct(uids@, ts as int, suffix_chars);
        }
        uids
    }
}

/// A user friendly interface around a redis list item, allowing for easy updates and replacements.
/// This encapsulates when items aren't available, or the user doesn't actually want to use an item in some cases, but doesn't want to pass Options<> around.
pub struct RedisTempListItem<T> {
    // By making all this optional, it encapsulates a lot of user logic & redis errors:
    // - redis failure
    // - key expiries
    // - list expiries
    // - the user just not wanting to use a list in a case, but still wants to use a fn that might take a list.
    maybe_tmp_list: Option<Arc<RedisTempList>>,
    maybe_uid: Option<String>,
    maybe_item: Option<T>,
}

/// What writing an item holder back to its list amounts to.
pub enum TempListWrite {
    /// Nothing to write: no list, or (for updates) no item.
    Skip,
    /// The item has a uid in the list: overwrite it in place.
    SyncExisting,
    /// The list is known but the item has no uid: push it as a new entry.
    PushNew,
}

/// The holder a list hands out for an item stored under `uid`.
pub open spec fn spec_stored<T>(list: Arc<RedisTempList>, uid: String, item: T) -> RedisTempListItem<T> {
    RedisTempListItem::spec_from_parts(Some(list), Some(uid), Some(item))
}

/// The items present in the holders, in order.
pub open spec fn present_items<T>(holders: Seq<RedisTempListItem<T>>) -> Seq<T>
    decreases holders.len(),
{
    if holders.len() == 0 {
        Seq::empty()
    } else {
        let rest = present_items(holders.drop_last());
        match holders.last().spec_item() {
            Some(item) => rest.push(item),
            None => rest,
        }
    }
}

/// The pairs `(uid, score)` whose uid decoded, in order.
pub open spec fn decoded_pairs(info: Seq<(Option<String>, i64)>) -> Seq<(String, i64)>
    decreases info.len(),
{
    if info.len() == 0 {
        Seq::empty()
    } else {
        let rest = decoded_pairs(info.drop_last());
        match info.last().0 {
            Some(uid) => rest.push((uid, info.last().1)),
            None => rest,
        }
    }
}

/// Pair the first `n` fetched values with the first `n` `(uid, score)` entries,
/// keeping `(score, uid, value)` for each value that was present.
pub open spec fn joined_reads<T>(
    values: Seq<Option<T>>,
    info: Seq<(String, i64)>,
    n: int,
) -> Seq<(i64, String, T)>
    decreases n,
{
    if n <= 0 {
        Seq::empty()
    } else {
        let rest = joined_reads(values, info, n - 1);
        match values[n - 1] {
            Some(v) => rest.push((info[n - 1].1, info[n - 1].0, v)),
            None => rest,
        }
    }
}

/// `reads` are the present values among the first `n`, in order, each joined with its
/// `(uid, score)`: `positions[j]` is where `reads[j]` came from; the positions rise, each
/// holds a present value, and every present value among the first `n` has one.
pub open spec fn reads_at_positions<T>(
    values: Seq<Option<T>>,
    info: Seq<(String, i64)>,
    n: int,
    reads: Seq<(i64, String, T)>,
    positions: Seq<int>,
) -> bool {
    &&& positions.len() == reads.len()
    &&& forall|j: int|
        0 <= j < positions.len() ==> {
            &&& 0 <= #[trigger] positions[j] < n
            &&& values[positions[j]] is Some
            &&& reads[j] == (info[positions[j]].1, info[positions[j]].0, values[positions[j]]->0)
        }
    &&& forall|j1: int, j2: int|
        0 <= j1 < j2 < positions.len() ==> #[trigger] positions[j1] < #[trigger] positions[j2]
    &&& forall|i: int|
        0 <= i < n && #[trigger] values[i] is Some ==> exists|j: int| 0 <= j < positions.len() && positions[j] == i
}

/// Law: the joined reads keep exactly the present values, in order, each with its own
/// `(uid, score)`; nothing present is dropped. Returns where each read came from.
pub proof fn lemma_joined_reads_keep_present<T>(values: Seq<Option<T>>, info: Seq<(String, i64)>, n: int) -> (positions: Seq<int>)
    requires
        0 <= n <= values.len(),
        n <= info.len(),
    ensures
        reads_at_positions(values, info, n, joined_reads(values, info, n), positions),
    decreases n,
{
    if n <= 0 {
        Seq::empty()
    } else {
        let prev = lemma_joined_reads_keep_present(values, info, n - 1);
        let rest = joined_reads(values, info, n - 1);
        match values[n - 1] {
            Some(v) => {
                let positions = prev.push(n - 1);
                let reads = rest.push((info[n - 1].1, info[n - 1].0, v));
                assert(joined_reads(values, info, n) == reads);
                assert forall|j: int| 0 <= j < positions.len() implies {
                    &&& 0 <= #[trigger] positions[j] < n
                    &&& values[positions[j]] is Some
                    &&& reads[j] == (info[positions[j]].1, info[positions[j]].0, values[positions[j]]->0)
                } by {
                    if j < prev.len() {
                        assert(positions[j] == prev[j]);
                        assert(reads[j] == rest[j]);
                    }
                }
                assert forall|i: int| 0 <= i < n && #[trigger] values[i] is Some implies exists|j: int|
                    0 <= j < positions.len() && positions[j] == i by {
                    if i == n - 1 {
                        assert(positions[positions.len() - 1] == i);
                    } else {
                        let j = choose|j: int| 0 <= j < prev.len() && prev[j] == i;
                        assert(positions[j] == i);
                    }
                }
                positions
            },
            None => {
                assert(joined_reads(values, info, n) == rest);
                assert forall|i: int| 0 <= i < n && #[trigger] values[i] is Some implies exists|j: int|
                    0 <= j < prev.len() && prev[j] == i by {
                    assert(i != n - 1);
                }
                prev
            },
        }
    }
}

/// For the first `n` fetched values, the holders of those present under the matching uid.
pub open spec fn holders_of_present<T>(
    list: Arc<RedisTempList>,
    values: Seq<Option<T>>,
    uids: Seq<String>,
    n: int,
) -> Seq<RedisTempListItem<T>>
    decreases n,
{
    if n <= 0 {
        Seq::empty()
    } else {
        let rest = holders_of_present(list, values, uids, n - 1);
        match values[n - 1] {
            Some(v) => rest.push(spec_stored(list, uids[n - 1], v)),
            None => rest,
        }
    }
}

/// The smaller of two lengths.
pub open spec fn min_len(a: nat, b: nat) -> nat {
    if a <= b {
        a
    } else {
        b
    }
}

/// `v` in reverse order.
fn reversed<T>(v: Vec<T>) -> (r: Vec<T>)
    ensures
        r@ == v@.reverse(),
{
    let mut v = v;
    let ghost orig = v@;
    let mut r: Vec<T> = Vec::new();
    while v.len() > 0
        invariant
            v@ == orig.take(v@.len() as int),
            v@.len() <= orig.len(),
            r@ == orig.skip(v@.len() as int).reverse(),
        decreases v.len(),
    {
        let ghost k = v@.len();
        let x = v.pop().unwrap();
        proof {
            assert(x == orig[k - 1]);
            assert(orig.skip(k - 1) =~= seq![x] + orig.skip(k as int));
            assert(orig.skip(k - 1).reverse() =~= orig.skip(k as int).reverse().push(x));
            assert(v@ =~= orig.take(k - 1));
        }
        r.push(x);
    }
    assert(orig.skip(0) =~= orig);
    r
}

impl<T> RedisTempListItem<T> {
    /// The list the item belongs to, if known.
    pub closed spec fn spec_list(&self) -> Option<Arc<RedisTempList>> {
        self.maybe_tmp_list
    }

    /// The item's uid in the list, if known.
    pub closed spec fn spec_uid(&self) -> Option<String> {
        self.maybe_uid
    }

    /// The item itself, if available.
    pub closed spec fn spec_item(&self) -> Option<T> {
        self.maybe_item
    }

    /// The holder with these parts.
    pub closed spec fn spec_from_parts(
        list: Option<Arc<RedisTempList>>,
        uid: Option<String>,
        item: Option<T>,
    ) -> Self {
        RedisTempListItem { maybe_tmp_list: list, maybe_uid: uid, maybe_item: item }
    }

    /// A holder is determined by its parts.
    pub proof fn lemma_parts(&self)
        ensures
            *self == Self::spec_from_parts(self.spec_list(), self.spec_uid(), self.spec_item()),
            Self::spec_from_parts(self.spec_list(), self.spec_uid(), self.spec_item()).spec_item()
                == self.spec_item(),
    {
    }

    /// The parts of a holder built from parts are those parts.
    pub proof fn lemma_from_parts(
        list: Option<Arc<RedisTempList>>,
        uid: Option<String>,
        item: Option<T>,
    )
        ensures
            Self::spec_from_parts(list, uid, item).spec_list() == list,
            Self::spec_from_parts(list, uid, item).spec_uid() == uid,
            Self::spec_from_parts(list, uid, item).spec_item() == item,
    {
    }

    /// Useful helper utility to just get a vec of valid items from a vec of holders.
    /// E.g. `RedisTempListItem::vec_items(vec![item1, item2, item3])`
    pub fn vec_items(items: Vec<Self>) -> (present: Vec<T>)
        ensures
            present@ == present_items(items@),
    {
        let ghost all = items@;
        let mut present: Vec<T> = Vec::new();
        let mut rev = reversed(items);
        let ghost mut done: int = 0;
        while rev.len() > 0
            invariant
                0 <= done <= all.len(),
                rev@ == all.skip(done).reverse(),
                present@ == present_items(all.take(done)),
            decreases rev.len(),
        {
            let holder = rev.pop().unwrap();
            proof {
                assert(holder == all[done]);
                assert(all.take(done + 1).drop_last() =~= all.take(done));
                assert(all.skip(done + 1).reverse() =~= all.skip(done).reverse().drop_last());
                done = done + 1;
            }
            if let Some(item) = holder.into_item() {
                present.push(item);
            }
        }
        assert(all.take(all.len() as int) =~= all);
        present
    }

    /// Create a new holder for a redis list item. All optional to encapsulate error paths if needed.
    pub fn new(uid: Option<String>, item: Option<T>, tmp_list: Option<&Arc<RedisTempList>>) -> (holder:
        Self)
        ensures
            holder.spec_uid() == uid,
            holder.spec_item() == item,
            holder.spec_list() == match tmp_list {
                Some(list) => Some(*list),
                None => None,
            },
    {
        let maybe_tmp_list = match tmp_list {
            Some(list) => Some(share(list)),
            None => None,
        };
        RedisTempListItem { maybe_tmp_list, maybe_uid: uid, maybe_item: item }
    }

    /// Create a dummy holder for a redis list item, useful when the list isn't available but you still want to use the holder elsewhere.
    pub fn new_dummy() -> (holder: Self)
        ensures
            holder.spec_list() is None,
            holder.spec_uid() is None,
            holder.spec_item() is None,
    {
        RedisTempListItem { maybe_tmp_list: None, maybe_uid: None, maybe_item: None }
    }

    /// Access the underlying item's uid, if it exists.
    pub fn uid(&self) -> (uid: Option<&str>)
        ensures
            uid is Some <==> self.spec_uid() is Some,
            uid matches Some(u) ==> u@ == self.spec_uid()->0@,
    {
        match &self.maybe_uid {
            Some(u) => Some(u.as_str()),
            None => None,
        }
    }

    /// Access the underlying item, if it exists.
    pub fn item(&self) -> (item: Option<&T>)
        ensures
            item == match self.spec_item() {
                Some(i) => Some(&i),
                None => None::<&T>,
            },
    {
        self.maybe_item.as_ref()
    }

    /// Consume the holder, returning the item, if it exists.
    pub fn into_item(self) -> (item: Option<T>)
        ensures
            item == self.spec_item(),
    {
        self.maybe_item
    }

    /// The list the item belongs to, if known.
    pub fn tmp_list(&self) -> (list: Option<&Arc<RedisTempList>>)
        ensures
            list == match self.spec_list() {
                Some(l) => Some(&l),
                None => None::<&Arc<RedisTempList>>,
            },
    {
        self.maybe_tmp_list.as_ref()
    }

    /// Mutable access to the underlying item, if it exists.
    pub fn item_mut(&mut self) -> (item: Option<&mut T>)
        ensures
            final(self).spec_list() == old(self).spec_list(),
            final(self).spec_uid() == old(self).spec_uid(),
            old(self).spec_item() is None ==> item is None && final(self).spec_item() is None,
            old(self).spec_item() matches Some(i) ==> item matches Some(r) && *r == i
                && final(self).spec_item() == Some(*final(r)),
    {
        self.maybe_item.as_mut()
    }

    /// Set the underlying item.
    pub fn set_item(&mut self, item: T)
        ensures
            final(self).spec_list() == old(self).spec_list(),
            final(self).spec_uid() == old(self).spec_uid(),
            final(self).spec_item() == Some(item),
    {
        self.maybe_item = Some(item);
    }

    /// Take the underlying item out, leaving none.
    pub fn take_item(&mut self) -> (item: Option<T>)
        ensures
            item == old(self).spec_item(),
            final(self).spec_list() == old(self).spec_list(),
            final(self).spec_uid() == old(self).spec_uid(),
            final(self).spec_item() is None,
    {
        self.maybe_item.take()
    }

    /// What `update` / `update_async` do with this holder: nothing without a list and an
    /// item (the updater is then not run); otherwise sync in place when the uid is known,
    /// else push the updated item as a new entry.
    pub fn update_action(&self) -> (w: TempListWrite)
        ensures
            w is Skip <==> self.spec_list() is None || self.spec_item() is None,
            w is SyncExisting <==> self.spec_list() is Some && self.spec_item() is Some
                && self.spec_uid() is Some,
            w is PushNew <==> self.spec_list() is Some && self.spec_item() is Some
                && self.spec_uid() is None,
    {
        if self.maybe_tmp_list.is_some() && self.maybe_item.is_some() {
            if self.maybe_uid.is_some() {
                TempListWrite::SyncExisting
            } else {
                TempListWrite::PushNew
            }
        } else {
            TempListWrite::Skip
        }
    }

    /// What `replace` does with this holder: nothing without a list (the replacer is then
    /// not run); otherwise sync in place when the uid is known, else push as a new entry.
    pub fn replace_action(&self) -> (w: TempListWrite)
        ensures
            w is Skip <==> self.spec_list() is None,
            w is SyncExisting <==> self.spec_list() is Some && self.spec_uid() is Some,
            w is PushNew <==> self.spec_list() is Some && self.spec_uid() is None,
    {
        if self.maybe_tmp_list.is_some() {
            if self.maybe_uid.is_some() {
                TempListWrite::SyncExisting
            } else {
                TempListWrite::PushNew
            }
        } else {
            TempListWrite::Skip
        }
    }

    /// Whether `delete` removes anything: only when both the list and the uid are known.
    pub fn deletes(&self) -> (d: bool)
        ensures
            d <==> self.spec_list() is Some && self.spec_uid() is Some,
    {
        self.maybe_tmp_list.is_some() && self.maybe_uid.is_some()
    }

    /// The holder `push` returns, given the uids the list handed back for the one item:
    /// the stored item when exactly one uid came back, a dummy otherwise.
    pub fn pushed(list: &Arc<RedisTempList>, uids: Option<Vec<String>>, item: T) -> (holder: Self)
        ensures
            (uids matches Some(u) && u@.len() == 1) ==> holder == spec_stored(
                *list,
                uids->0@[0],
                item,
            ),
            !(uids matches Some(u) && u@.len() == 1) ==> holder.spec_list() is None
                && holder.spec_uid() is None && holder.spec_item() is None,
    {
        match uids {
            Some(mut u) => {
                if u.len() == 1 {
                    let uid = u.pop().unwrap();
                    RedisTempListItem::new(Some(uid), Some(item), Some(list))
                } else {
                    RedisTempListItem::new_dummy()
                }
            },
            None => RedisTempListItem::new_dummy(),
        }
    }

    /// The holders `extend` returns, given the uids the list handed back: each item with
    /// its uid (as far as both go) when the list stored them, none at all otherwise.
    pub fn extended(list: &Arc<RedisTempList>, uids: Option<Vec<String>>, items: Vec<T>) -> (holders:
        Vec<Self>)
        ensures
            uids is None ==> holders@.len() == 0,
            uids matches Some(u) ==> {
                &&& holders@.len() == min_len(u@.len(), items@.len())
                &&& forall|i: int|
                    0 <= i < holders@.len() ==> #[trigger] holders@[i] == spec_stored(
                        *list,
                        u@[i],
                        items@[i],
                    )
            },
    {
        let mut holders: Vec<Self> = Vec::new();
        match uids {
            None => holders,
            Some(u) => {
                let ghost us = u@;
                let ghost its = items@;
                let mut ru = reversed(u);
                let mut ri = reversed(items);
                let ghost mut k: int = 0;
                while ru.len() > 0 && ri.len() > 0
                    invariant
                        0 <= k <= us.len(),
                        k <= its.len(),
                        ru@ == us.skip(k).reverse(),
                        ri@ == its.skip(k).reverse(),
                        holders@.len() == k,
                        forall|i: int|
                            0 <= i < k ==> #[trigger] holders@[i] == spec_stored(
                                *list,
                                us[i],
                                its[i],
                            ),
                    decreases ru.len(),
                {
                    let uid = ru.pop().unwrap();
                    let item = ri.pop().unwrap();
                    proof {
                        assert(uid == us[k]);
                        assert(item == its[k]);
                        assert(us.skip(k + 1).reverse() =~= us.skip(k).reverse().drop_last());
                        assert(its.skip(k + 1).reverse() =~= its.skip(k).reverse().drop_last());
                    }
                    let holder = RedisTempListItem::new(Some(uid), Some(item), Some(list));
                    holders.push(holder);
                    proof {
                        k = k + 1;
                    }
                }
                holders
            },
        }
    }

    /// The holders `read_multi` returns: for each requested uid (as far as the fetched
    /// values go), the holder of the value fetched for it, skipping values that were
    /// missing or failed to decode.
    pub fn for_fetched(list: &Arc<RedisTempList>, values: Vec<Option<T>>, uids: Vec<String>) -> (holders:
        Vec<Self>)
        ensures
            holders@ == holders_of_present(
                *list,
                values@,
                uids@,
                min_len(values@.len(), uids@.len()) as int,
            ),
    {
        let ghost vs = values@;
        let ghost us = uids@;
        let mut holders: Vec<Self> = Vec::new();
        let mut rv = reversed(values);
        let mut ru = reversed(uids);
        let ghost mut k: int = 0;
        while rv.len() > 0 && ru.len() > 0
            invariant
                0 <= k <= vs.len(),
                k <= us.len(),
                rv@ == vs.skip(k).reverse(),
                ru@ == us.skip(k).reverse(),
                holders@ == holders_of_present(*list, vs, us, k),
            decreases rv.len(),
        {
            let value = rv.pop().unwrap();
            let uid = ru.pop().unwrap();
            proof {
                assert(value == vs[k]);
                assert(uid == us[k]);
                assert(vs.skip(k + 1).reverse() =~= vs.skip(k).reverse().drop_last());
                assert(us.skip(k + 1).reverse() =~= us.skip(k).reverse().drop_last());
                k = k + 1;
            }
            if let Some(v) = value {
                holders.push(RedisTempListItem::new(Some(uid), Some(v), Some(list)));
            }
        }
        proof {
            assert(k == min_len(vs.len(), us.len()));
        }
        holders
    }

    /// The holders `read_recent` returns for the raw `(score, uid, item)` reads, in order.
    pub fn for_reads(list: &Arc<RedisTempList>, reads: Vec<(i64, String, T)>) -> (holders: Vec<Self>)
        ensures
            holders@.len() == reads@.len(),
            forall|i: int|
                0 <= i < reads@.len() ==> #[trigger] holders@[i] == spec_stored(
                    *list,
                    reads@[i].1,
                    reads@[i].2,
                ),
    {
        let ghost rs = reads@;
        let mut holders: Vec<Self> = Vec::new();
        let mut rr = reversed(reads);
        let ghost mut k: int = 0;
        while rr.len() > 0
            invariant
                0 <= k <= rs.len(),
                rr@ == rs.skip(k).reverse(),
                holders@.len() == k,
                forall|i: int|
                    0 <= i < k ==> #[trigger] holders@[i] == spec_stored(*list, rs[i].1, rs[i].2),
            decreases rr.len(),
        {
            let (_score, uid, item) = rr.pop().unwrap();
            proof {
                assert(rs[k] == (_score, uid, item));
                assert(rs.skip(k + 1).reverse() =~= rs.skip(k).reverse().drop_last());
            }
            holders.push(RedisTempListItem::new(Some(uid), Some(item), Some(list)));
            proof {
                k = k + 1;
            }
        }
        holders
    }
}

/// The `(uid, score)` pairs of a range read whose uid decoded, in order.
pub fn decoded_uids(info: Vec<(Option<String>, i64)>) -> (pairs: Vec<(String, i64)>)
    ensures
        pairs@ == decoded_pairs(info@),
{
    let ghost all = info@;
    let mut pairs: Vec<(String, i64)> = Vec::new();
    let mut rev = reversed(info);
    let ghost mut done: int = 0;
    while rev.len() > 0
        invariant
            0 <= done <= all.len(),
            rev@ == all.skip(done).reverse(),
            pairs@ == decoded_pairs(all.take(done)),
        decreases rev.len(),
    {
        let (uid, score) = rev.pop().unwrap();
        proof {
            assert(all[done] == (uid, score));
            assert(all.take(done + 1).drop_last() =~= all.take(done));
            assert(all.skip(done + 1).reverse() =~= all.skip(done).reverse().drop_last());
            done = done + 1;
        }
        if let Some(u) = uid {
            pairs.push((u, score));
        }
    }
    assert(all.take(all.len() as int) =~= all);
    pairs
}

/// Join the values fetched for the decoded `(uid, score)` pairs into the raw
/// `(score, uid, value)` reads, as far as both go, skipping values that were missing
/// or failed to decode.
pub fn joined_recent<T>(values: Vec<Option<T>>, info: Vec<(String, i64)>) -> (reads: Vec<(i64, String, T)>)
    ensures
        reads@ == joined_reads(values@, info@, min_len(values@.len(), info@.len()) as int),
        exists|positions: Seq<int>|
            #[trigger] reads_at_positions(
                values@,
                info@,
                min_len(values@.len(), info@.len()) as int,
                reads@,
                positions,
            ),
{
    let ghost vs = values@;
    let ghost inf = info@;
    let mut reads: Vec<(i64, String, T)> = Vec::new();
    let mut rv = reversed(values);
    let mut ri = reversed(info);
    let ghost mut k: int = 0;
    while rv.len() > 0 && ri.len() > 0
        invariant
            0 <= k <= vs.len(),
            k <= inf.len(),
            rv@ == vs.skip(k).reverse(),
            ri@ == inf.skip(k).reverse(),
            reads@ == joined_reads(vs, inf, k),
        decreases rv.len(),
    {
        let value = rv.pop().unwrap();
        let (uid, score) = ri.pop().unwrap();
        proof {
            assert(value == vs[k]);
            assert(inf[k] == (uid, score));
            assert(vs.skip(k + 1).reverse() =~= vs.skip(k).reverse().drop_last());
            assert(inf.skip(k + 1).reverse() =~= inf.skip(k).reverse().drop_last());
            k = k + 1;
        }
        if let Some(v) = value {
            reads.push((score, uid, v));
        }
    }
    proof {
        assert(k == min_len(vs.len(), inf.len()));
        let positions = lemma_joined_reads_keep_present(vs, inf, k);
        assert(reads_at_positions(vs, inf, k, reads@, positions));
    }
    reads
}

} // verus!

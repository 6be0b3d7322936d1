use std::cmp::Ordering;
use vstd::prelude::*;

use crate::seq_index::{after, at, before, next_of, prior_of, wide, wide_found};

verus! {

/// A trait allowing arbitrary types to be binary searchable.
pub trait BinarySearchable {
    /// The type of the items in the array.
    type Item;

    /// The items of the array, in order.
    spec fn items(&self) -> Seq<Self::Item>;

    /// Get the length of the array.
    fn len(&self) -> (n: usize)
        ensures
            n == self.items().len(),
    ;

    /// Get the item at the given index.
    fn get(&self, index: usize) -> (item: &Self::Item)
        requires
            index < self.items().len(),
        ensures
            *item == at(self.items(), index),
    ;

    /// Check if the array is empty.
    fn is_empty(&self) -> (empty: bool)
        ensures
            empty == (self.items().len() == 0),
    {
        self.len() == 0
    }
}

impl<T> BinarySearchable for Vec<T> {
    type Item = T;

    open spec fn items(&self) -> Seq<T> {
        self@
    }

    fn len(&self) -> (n: usize) {
        self.len()
    }

    fn get(&self, index: usize) -> (item: &T) {
        &self[index]
    }
}

impl<T, const N: usize> BinarySearchable for [T; N] {
    type Item = T;

    open spec fn items(&self) -> Seq<T> {
        self@
    }

    fn len(&self) -> (n: usize) {
        proof {
            vstd::array::array_len_matches_n(self);
        }
        N
    }

    fn get(&self, index: usize) -> (item: &T) {
        &self[index]
    }
}

impl<T> BinarySearchable for [T] {
    type Item = T;

    open spec fn items(&self) -> Seq<T> {
        self@
    }

    fn len(&self) -> (n: usize) {
        self.len()
    }

    fn get(&self, index: usize) -> (item: &T) {
        &self[index]
    }
}

/// Where an ordering sends the search: items the target lies beyond come first,
/// then the items matching the target, then the items the target lies before.
pub open spec fn ordering_rank(o: Ordering) -> int {
    match o {
        Ordering::Greater => 0,
        Ordering::Equal => 1,
        Ordering::Less => 2,
    }
}

/// The comparer's answers along `s` never step back in the search direction:
/// every `Greater` comes before every `Equal`, which comes before every `Less`.
/// (This is what "the array is sorted for this target" means.)
pub open spec fn sorted_by<Item, C: Fn(&Item) -> Ordering>(comparer: C, s: Seq<Item>) -> bool {
    forall|i: usize, j: usize, oi: Ordering, oj: Ordering|
        #![trigger call_ensures(comparer, (&at(s, i),), oi), call_ensures(comparer, (&at(s, j),), oj)]
        i <= j < s.len() && call_ensures(comparer, (&at(s, i),), oi) && call_ensures(
            comparer,
            (&at(s, j),),
            oj,
        ) ==> ordering_rank(oi) <= ordering_rank(oj)
}

/// The answers a comparer may give along positions `0..n` never step back in the
/// search direction.
pub open spec fn answers_sorted<T>(answers: spec_fn(usize, Ordering) -> bool, s: Seq<T>) -> bool {
    forall|i: usize, j: usize, oi: Ordering, oj: Ordering|
        #![trigger answers(i, oi), answers(j, oj)]
        i <= j < s.len() && answers(i, oi) && answers(j, oj) ==> ordering_rank(oi) <= ordering_rank(oj)
}

/// The comparer's answer for the item at `i`, when shown that item with its neighbours.
pub open spec fn sibling_answer<Item, C: Fn(Option<&Item>, &Item, Option<&Item>) -> Ordering>(
    comparer: C,
    s: Seq<Item>,
    i: usize,
    o: Ordering,
) -> bool {
    call_ensures(comparer, (prior_of(&s, i), &at(s, i), next_of(&s, i)), o)
}

/// As [`sorted_by`], for a comparer that is shown each item with its neighbours.
pub open spec fn sorted_with_siblings<
    Item,
    C: Fn(Option<&Item>, &Item, Option<&Item>) -> Ordering,
>(comparer: C, s: Seq<Item>) -> bool {
    forall|i: usize, j: usize, oi: Ordering, oj: Ordering|
        #![trigger sibling_answer(comparer, s, i, oi), sibling_answer(comparer, s, j, oj)]
        i <= j < s.len() && sibling_answer(comparer, s, i, oi) && sibling_answer(comparer, s, j, oj)
            ==> ordering_rank(oi) <= ordering_rank(oj)
}

/// Binary search for the desired item in the array.
/// Returns None when not exactly found.
///
/// Arguments:
/// - arr_like: The array-like structure to search.
/// - comparer: `Fn(&Item)` -> "where to go from here".
/// - To support multiple items with the sort key, the `finalizer` will confirm the item is the one we want, checking all of those matching the sort key. If unique to the sort key just set to `|_| true`.
///
/// ARR SMALLEST TO LARGEST: `$target.cmp($item_val)`
/// ARR LARGEST TO SMALLEST: `$item_val.cmp(&$target)`
///
/// Returns:
/// - Some(index) the index of the item in the array.
/// - None if the item is not found or array empty.
pub fn binary_search_exact<
    Item,
    A: BinarySearchable<Item = Item>,
    C: Fn(&Item) -> Ordering,
    F: Fn(&Item) -> bool,
>(arr_like: &A, comparer: C, finalizer: F) -> (found: Option<usize>)
    requires
        forall|i: usize| i < arr_like.items().len() ==> call_requires(comparer, (&at(arr_like.items(), i),)),
        forall|i: usize| i < arr_like.items().len() ==> call_requires(finalizer, (&at(arr_like.items(), i),)),
    ensures
        found matches Some(i) ==> {
            &&& i < arr_like.items().len()
            &&& call_ensures(comparer, (&at(arr_like.items(), i),), Ordering::Equal)
            &&& call_ensures(finalizer, (&at(arr_like.items(), i),), true)
        },
        found is None && sorted_by(comparer, arr_like.items()) ==> forall|i: usize|
            i < arr_like.items().len() && call_ensures(comparer, (&at(arr_like.items(), i),), Ordering::Equal)
                ==> call_ensures(finalizer, (&at(arr_like.items(), i),), false),
        forall|ans: spec_fn(int) -> Ordering, fin: spec_fn(int) -> bool|
            #[trigger] answers_follow(comparer, arr_like.items(), ans) && #[trigger] verdicts_follow(
                finalizer,
                arr_like.items(),
                fin,
            ) ==> wide_found(found) == exact_result(ans, fin, arr_like.items().len()),
{
    let ghost s = arr_like.items();
    if arr_like.is_empty() {
        return None;
    }
    let n = arr_like.len();
    let mut low: usize = 0;
    let mut high: usize = n - 1;
    while low <= high
        invariant
            s == arr_like.items(),
            n == s.len(),
            high < n,
            low <= high + 1,
            forall|i: usize| i < n ==> call_requires(comparer, (&at(s, i),)),
            forall|i: usize| i < n ==> call_requires(finalizer, (&at(s, i),)),
            sorted_by(comparer, s) ==> forall|j: usize, o: Ordering|
                j < low && call_ensures(comparer, (&at(s, j),), o) ==> o == Ordering::Greater,
            sorted_by(comparer, s) ==> forall|j: usize, o: Ordering|
                high < j < n && call_ensures(comparer, (&at(s, j),), o) ==> o == Ordering::Less,
            forall|ans: spec_fn(int) -> Ordering, fin: spec_fn(int) -> bool|
                #[trigger] answers_follow(comparer, s, ans) && #[trigger] verdicts_follow(finalizer, s, fin)
                    ==> exact_result(ans, fin, s.len()) == hit_result(ans, fin, s.len(), wide(low), wide(high)),
        decreases high + 1 - low,
    {
        let mid = low + (high - low) / 2;
        let answer = comparer(arr_like.get(mid));
        assert(call_ensures(comparer, (&at(s, mid),), answer));
        assert(mid == (low + high) / 2);
        match answer {
            Ordering::Greater => {
                proof {
                    if sorted_by(comparer, s) {
                        assert forall|j: usize, o: Ordering|
                            j <= mid && call_ensures(comparer, (&at(s, j),), o) implies o
                            == Ordering::Greater by {
                            assert(call_ensures(comparer, (&at(s, mid),), Ordering::Greater));
                        }
                    }
                }
                low = mid + 1;
            },
            Ordering::Less => {
                proof {
                    if sorted_by(comparer, s) {
                        assert forall|j: usize, o: Ordering|
                            mid <= j < n && call_ensures(comparer, (&at(s, j),), o) implies o
                            == Ordering::Less by {
                            assert(call_ensures(comparer, (&at(s, mid),), Ordering::Less));
                        }
                    }
                }
                if mid == 0 {
                    return None;
                }
                high = mid - 1;
            },
            Ordering::Equal => {
                let judge = Ghost(comparer);
                let by_position = |_index: usize, item: &Item| -> (o: Ordering)
                    requires
                        call_requires(judge@, (item,)),
                    ensures
                        call_ensures(judge@, (item,), o),
                    { comparer(item) };
                let ghost answers = |j: usize, o: Ordering|
                    call_ensures(comparer, (&at(s, j),), o);
                proof {
                    assert forall|i: usize| i < n implies call_requires(
                        by_position,
                        (i, &at(s, i)),
                    ) by {
                        assert(call_requires(comparer, (&at(s, i),)));
                    }
                    if sorted_by(comparer, s) {
                        assert forall|i: usize, j: usize, oi: Ordering, oj: Ordering|
                            #![trigger answers(i, oi), answers(j, oj)]
                            i <= j < s.len() && answers(i, oi) && answers(j, oj) implies ordering_rank(oi)
                            <= ordering_rank(oj) by {
                            assert(call_ensures(comparer, (&at(s, i),), oi));
                            assert(call_ensures(comparer, (&at(s, j),), oj));
                        }
                        assert(answers_sorted(answers, s));
                    }
                }
                proof {
                    assert forall|ans: spec_fn(int) -> Ordering|
                        #[trigger] answers_follow(comparer, s, ans) implies positional_answers_follow(
                        by_position,
                        s,
                        ans,
                    ) && ans(wide(mid)) == Ordering::Equal by {
                        assert forall|i: usize, o: Ordering|
                            i < s.len() && #[trigger] call_ensures(by_position, (i, &at(s, i)), o) implies o
                            == ans(wide(i)) by {
                            assert(call_ensures(comparer, (&at(s, i),), o));
                        }
                    }
                }
                let found = finalize_index(by_position, finalizer, arr_like, mid, Ghost(answers));
                return found;
            },
        }
    }
    None
}

/// Both neighbours of the item at `index`, when they exist.
fn get_prior_and_next<Item, A: BinarySearchable<Item = Item>>(
    arr_like: &A,
    index: usize,
) -> (neighbours: (Option<&Item>, Option<&Item>))
    requires
        index < arr_like.items().len(),
    ensures
        neighbours.0 == prior_of(&arr_like.items(), index),
        neighbours.1 == next_of(&arr_like.items(), index),
{
    let prior = if index == 0 {
        None
    } else {
        Some(arr_like.get(index - 1))
    };
    let next = if index == arr_like.len() - 1 {
        None
    } else {
        Some(arr_like.get(index + 1))
    };
    (prior, next)
}

/// Binary search for the desired item in the array, but also passes the prior and next items into the comparison function, if they exist.
/// Returns None when not exactly found.
///
/// Arguments:
/// - arr_like: The array-like structure to search.
/// - comparer: `Fn(Option<&Item>, &Item, Option<&Item>)` (prior, target, next) -> "where to go from here"
/// - To support multiple items with the sort key, the `finalizer` will confirm the item is the one we want, checking all of those matching the sort key. If unique to the sort key just set to `|_| true`.
///
/// ARR SMALLEST TO LARGEST: `$target.cmp($item_val)`
/// ARR LARGEST TO SMALLEST: `$item_val.cmp(&$target)`
///
/// Returns:
/// - Some(index) the index of the item in the array.
/// - None if the item is not found or array empty.
pub fn binary_search_exact_with_siblings<
    Item,
    A: BinarySearchable<Item = Item>,
    C: Fn(Option<&Item>, &Item, Option<&Item>) -> Ordering,
    F: Fn(&Item) -> bool,
>(arr_like: &A, comparer: C, finalizer: F) -> (found: Option<usize>)
    requires
        forall|i: usize|
            i < arr_like.items().len() ==> call_requires(
                comparer,
                (prior_of(&arr_like.items(), i), &at(arr_like.items(), i), next_of(&arr_like.items(), i)),
            ),
        forall|i: usize| i < arr_like.items().len() ==> call_requires(finalizer, (&at(arr_like.items(), i),)),
    ensures
        found matches Some(i) ==> {
            &&& i < arr_like.items().len()
            &&& sibling_answer(comparer, arr_like.items(), i, Ordering::Equal)
            &&& call_ensures(finalizer, (&at(arr_like.items(), i),), true)
        },
        found is None && sorted_with_siblings(comparer, arr_like.items()) ==> forall|i: usize|
            i < arr_like.items().len() && sibling_answer(comparer, arr_like.items(), i, Ordering::Equal)
                ==> call_ensures(finalizer, (&at(arr_like.items(), i),), false),        forall|ans: spec_fn(int) -> Ordering, fin: spec_fn(int) -> bool|
            #[trigger] sibling_answers_follow(comparer, arr_like.items(), ans) && #[trigger] verdicts_follow(
                finalizer,
                arr_like.items(),
                fin,
            ) ==> wide_found(found) == exact_result(ans, fin, arr_like.items().len()),
{
    let ghost s = arr_like.items();
    if arr_like.is_empty() {
        return None;
    }
    let n = arr_like.len();
    let mut low: usize = 0;
    let mut high: usize = n - 1;
    while low <= high
        invariant
            s == arr_like.items(),
            n == s.len(),
            high < n,
            low <= high + 1,
            forall|i: usize|
                i < n ==> call_requires(comparer, (prior_of(&s, i), &at(s, i), next_of(&s, i))),
            forall|i: usize| i < n ==> call_requires(finalizer, (&at(s, i),)),
            sorted_with_siblings(comparer, s) ==> forall|j: usize, o: Ordering|
                j < low && sibling_answer(comparer, s, j, o) ==> o == Ordering::Greater,
            sorted_with_siblings(comparer, s) ==> forall|j: usize, o: Ordering|
                high < j < n && sibling_answer(comparer, s, j, o) ==> o == Ordering::Less,
            forall|ans: spec_fn(int) -> Ordering, fin: spec_fn(int) -> bool|
                #[trigger] sibling_answers_follow(comparer, s, ans) && #[trigger] verdicts_follow(
                    finalizer,
                    s,
                    fin,
                ) ==> exact_result(ans, fin, s.len()) == hit_result(ans, fin, s.len(), wide(low), wide(high)),
        decreases high + 1 - low,
    {
        let mid = low + (high - low) / 2;
        assert(mid == (low + high) / 2);
        let (prior, next) = get_prior_and_next(arr_like, mid);
        let answer = comparer(prior, arr_like.get(mid), next);
        assert(sibling_answer(comparer, s, mid, answer));
        match answer {
            Ordering::Greater => {
                proof {
                    if sorted_with_siblings(comparer, s) {
                        assert forall|j: usize, o: Ordering|
                            j <= mid && sibling_answer(comparer, s, j, o) implies o
                            == Ordering::Greater by {
                            assert(sibling_answer(comparer, s, mid, Ordering::Greater));
                        }
                    }
                }
                low = mid + 1;
            },
            Ordering::Less => {
                proof {
                    if sorted_with_siblings(comparer, s) {
                        assert forall|j: usize, o: Ordering|
                            mid <= j < n && sibling_answer(comparer, s, j, o) implies o
                            == Ordering::Less by {
                            assert(sibling_answer(comparer, s, mid, Ordering::Less));
                        }
                    }
                }
                if mid == 0 {
                    return None;
                }
                high = mid - 1;
            },
            Ordering::Equal => {
                let judge = Ghost(comparer);
                let by_position = |index: usize, item: &Item| -> (o: Ordering)
                    requires
                        index < arr_like.items().len(),
                        *item == at(arr_like.items(), index),
                        call_requires(
                            judge@,
                            (
                                prior_of(&arr_like.items(), index),
                                item,
                                next_of(&arr_like.items(), index),
                            ),
                        ),
                    ensures
                        sibling_answer(judge@, arr_like.items(), index, o),
                    {
                        let (prior, next) = get_prior_and_next(arr_like, index);
                        comparer(prior, item, next)
                    };
                let ghost answers = |j: usize, o: Ordering| sibling_answer(comparer, s, j, o);
                proof {
                    assert forall|i: usize| i < n implies call_requires(
                        by_position,
                        (i, &at(s, i)),
                    ) by {
                        assert(call_requires(comparer, (prior_of(&s, i), &at(s, i), next_of(&s, i))));
                    }
                    if sorted_with_siblings(comparer, s) {
                        assert forall|i: usize, j: usize, oi: Ordering, oj: Ordering|
                            #![trigger answers(i, oi), answers(j, oj)]
                            i <= j < s.len() && answers(i, oi) && answers(j, oj) implies ordering_rank(oi)
                            <= ordering_rank(oj) by {
                            assert(sibling_answer(comparer, s, i, oi));
                            assert(sibling_answer(comparer, s, j, oj));
                        }
                        assert(answers_sorted(answers, s));
                    }
                }
                proof {
                    assert forall|ans: spec_fn(int) -> Ordering|
                        #[trigger] sibling_answers_follow(comparer, s, ans) implies positional_answers_follow(
                        by_position,
                        s,
                        ans,
                    ) && ans(wide(mid)) == Ordering::Equal by {
                        assert forall|i: usize, o: Ordering|
                            i < s.len() && #[trigger] call_ensures(by_position, (i, &at(s, i)), o) implies o
                            == ans(wide(i)) by {
                            assert(sibling_answer(comparer, s, i, o));
                        }
                        assert(sibling_answer(comparer, s, mid, Ordering::Equal));
                    }
                }
                let found = finalize_index(by_position, finalizer, arr_like, mid, Ghost(answers));
                return found;
            },
        }
    }
    None
}

/// Every answer a comparer shown each item with its neighbours may give for the item at
/// `i` is `ans(i)`.
pub open spec fn sibling_answers_follow<Item, C: Fn(Option<&Item>, &Item, Option<&Item>) -> Ordering>(
    comparer: C,
    s: Seq<Item>,
    ans: spec_fn(int) -> Ordering,
) -> bool {
    forall|i: usize, o: Ordering| i < s.len() && #[trigger] sibling_answer(comparer, s, i, o) ==> o == ans(wide(i))
}

/// Law: a sibling search whose comparer answers as a plain comparer does (the
/// neighbours making no difference) finds what the plain exact search finds: given the
/// results that the two searches' contracts describe for answers `ans` that both
/// comparers follow and verdicts `fin` that the finalizer follows, the two are equal.
pub proof fn lemma_sibling_search_as_plain<
    Item,
    P: Fn(&Item) -> Ordering,
    C: Fn(Option<&Item>, &Item, Option<&Item>) -> Ordering,
    F: Fn(&Item) -> bool,
>(
    plain: P,
    comparer: C,
    finalizer: F,
    s: Seq<Item>,
    ans: spec_fn(int) -> Ordering,
    fin: spec_fn(int) -> bool,
    plain_found: Option<usize>,
    sibling_found: Option<usize>,
)
    requires
        answers_follow(plain, s, ans),
        sibling_answers_follow(comparer, s, ans),
        verdicts_follow(finalizer, s, fin),
        answers_follow(plain, s, ans) && verdicts_follow(finalizer, s, fin) ==> wide_found(plain_found)
            == exact_result(ans, fin, s.len()),
        sibling_answers_follow(comparer, s, ans) && verdicts_follow(finalizer, s, fin) ==> wide_found(
            sibling_found,
        ) == exact_result(ans, fin, s.len()),
    ensures
        plain_found == sibling_found,
{
}

/// Every answer a comparer shown positions may give for the item at `i` is `ans(i)`.
pub open spec fn positional_answers_follow<Item, C: Fn(usize, &Item) -> Ordering>(
    comparer: C,
    s: Seq<Item>,
    ans: spec_fn(int) -> Ordering,
) -> bool {
    forall|i: usize, o: Ordering|
        i < s.len() && #[trigger] call_ensures(comparer, (i, &at(s, i)), o) ==> o == ans(wide(i))
}

/// Every verdict the finalizer may give for the item at `i` is `fin(i)`.
pub open spec fn verdicts_follow<Item, F: Fn(&Item) -> bool>(
    finalizer: F,
    s: Seq<Item>,
    fin: spec_fn(int) -> bool,
) -> bool {
    forall|i: usize, b: bool|
        i < s.len() && #[trigger] call_ensures(finalizer, (&at(s, i),), b) ==> b == fin(wide(i))
}

/// Where the halving search over positions `low..=high` first meets a matching item,
/// given the answer `ans(i)` for each position.
pub open spec fn exact_hit(ans: spec_fn(int) -> Ordering, low: int, high: int) -> Option<int>
    decreases high + 1 - low,
{
    if 0 <= low <= high {
        let m = (low + high) / 2;
        match ans(m) {
            Ordering::Greater => exact_hit(ans, m + 1, high),
            Ordering::Less => if m == 0 {
                None
            } else {
                exact_hit(ans, low, m - 1)
            },
            Ordering::Equal => Some(m),
        }
    } else {
        None
    }
}

/// The nearest accepted item at or below `i` in the run of matching items.
pub open spec fn accepted_below(ans: spec_fn(int) -> Ordering, fin: spec_fn(int) -> bool, i: int) -> Option<int>
    decreases i + 1,
{
    if i < 0 || ans(i) != Ordering::Equal {
        None
    } else if fin(i) {
        Some(i)
    } else {
        accepted_below(ans, fin, i - 1)
    }
}

/// The nearest accepted item at or above `i` (below `n`) in the run of matching items.
pub open spec fn accepted_above(
    ans: spec_fn(int) -> Ordering,
    fin: spec_fn(int) -> bool,
    n: nat,
    i: int,
) -> Option<int>
    decreases n - i,
{
    if i >= n || ans(i) != Ordering::Equal {
        None
    } else if fin(i) {
        Some(i)
    } else {
        accepted_above(ans, fin, n, i + 1)
    }
}

/// The item chosen around the matching position `m`: `m` itself when accepted, else the
/// nearest accepted one below it, else the nearest accepted one above it.
pub open spec fn finalized(ans: spec_fn(int) -> Ordering, fin: spec_fn(int) -> bool, n: nat, m: int) -> Option<int> {
    if fin(m) {
        Some(m)
    } else {
        match accepted_below(ans, fin, m - 1) {
            Some(j) => Some(j),
            None => accepted_above(ans, fin, n, m + 1),
        }
    }
}

/// What the search over positions `low..=high` of `n` items finds, given each
/// position's answer and verdict.
pub open spec fn hit_result(
    ans: spec_fn(int) -> Ordering,
    fin: spec_fn(int) -> bool,
    n: nat,
    low: int,
    high: int,
) -> Option<int> {
    match exact_hit(ans, low, high) {
        Some(m) => finalized(ans, fin, n, m),
        None => None,
    }
}

/// What an exact search over `n` items finds, given each position's answer and verdict.
pub open spec fn exact_result(ans: spec_fn(int) -> Ordering, fin: spec_fn(int) -> bool, n: nat) -> Option<int> {
    hit_result(ans, fin, n, 0, n - 1)
}

/// Scanning up from anywhere in a stretch of matching, refused items ending at `k`
/// finds what scanning up from `k + 1` finds.
proof fn lemma_accepted_above_skips(
    ans: spec_fn(int) -> Ordering,
    fin: spec_fn(int) -> bool,
    n: nat,
    i: usize,
    k: usize,
)
    requires
        i <= k + 1,
        k < n,
        k < usize::MAX,
        forall|j: usize| i <= j <= k ==> #[trigger] ans(wide(j)) == Ordering::Equal && !fin(wide(j)),
    ensures
        accepted_above(ans, fin, n, wide(i)) == accepted_above(ans, fin, n, wide(k) + 1),
    decreases k + 1 - i,
{
    if i <= k {
        lemma_accepted_above_skips(ans, fin, n, after(i), k);
        assert(ans(wide(i)) == Ordering::Equal && !fin(wide(i)));
    }
}

/// Starting from a position whose item matches the sort key, find a matching item the
/// finalizer accepts: the position itself, else the nearest one below it, else the
/// nearest one above it, never leaving the run of items matching the sort key.
///
/// `answers` over-approximates what the comparer may answer at each position.
fn finalize_index<
    Item,
    A: BinarySearchable<Item = Item>,
    C: Fn(usize, &Item) -> Ordering,
    F: Fn(&Item) -> bool,
>(
    comparer: C,
    finalizer: F,
    arr_like: &A,
    index: usize,
    Ghost(answers): Ghost<spec_fn(usize, Ordering) -> bool>,
) -> (found: Option<usize>)
    requires
        index < arr_like.items().len(),
        forall|i: usize| i < arr_like.items().len() ==> call_requires(comparer, (i, &at(arr_like.items(), i))),
        forall|i: usize| i < arr_like.items().len() ==> call_requires(finalizer, (&at(arr_like.items(), i),)),
        forall|i: usize, o: Ordering|
            i < arr_like.items().len() && call_ensures(comparer, (i, &at(arr_like.items(), i)), o) ==> answers(i, o),
        answers(index, Ordering::Equal),
    ensures
        found matches Some(i) ==> {
            &&& i < arr_like.items().len()
            &&& answers(i, Ordering::Equal)
            &&& call_ensures(finalizer, (&at(arr_like.items(), i),), true)
        },
        found is None && answers_sorted(answers, arr_like.items()) ==> forall|i: usize|
            i < arr_like.items().len() && answers(i, Ordering::Equal) ==> call_ensures(
                finalizer,
                (&at(arr_like.items(), i),),
                false,
            ),
        forall|ans: spec_fn(int) -> Ordering, fin: spec_fn(int) -> bool|
            #[trigger] positional_answers_follow(comparer, arr_like.items(), ans) && #[trigger] verdicts_follow(
                finalizer,
                arr_like.items(),
                fin,
            ) && ans(wide(index)) == Ordering::Equal ==> wide_found(found) == finalized(
                ans,
                fin,
                arr_like.items().len(),
                wide(index),
            ),
{
    let ghost s = arr_like.items();
    let n = arr_like.len();
    // First check current index:
    let accepted = finalizer(arr_like.get(index));
    assert(call_ensures(finalizer, (&at(s, index),), accepted));
    if accepted {
        return Some(index);
    }
    // Go back to the first index that still matches the sort key:
    let mut i = index;
    loop
        invariant
            s == arr_like.items(),
            n == s.len(),
            index < n,
            i <= index,
            answers(index, Ordering::Equal),
            forall|j: usize| j < n ==> call_requires(comparer, (j, &at(s, j))),
            forall|j: usize| j < n ==> call_requires(finalizer, (&at(s, j),)),
            forall|j: usize, o: Ordering|
                j < n && call_ensures(comparer, (j, &at(s, j)), o) ==> answers(j, o),
            forall|j: usize|
                #![trigger at(s, j)]
                #![trigger answers(j, Ordering::Equal)]
                i <= j <= index ==> answers(j, Ordering::Equal) && call_ensures(
                    finalizer,
                    (&at(s, j),),
                    false,
                ),
            forall|j: usize|
                i <= j < index ==> #[trigger] call_ensures(comparer, (j, &at(s, j)), Ordering::Equal),
            forall|ans: spec_fn(int) -> Ordering, fin: spec_fn(int) -> bool|
                #[trigger] positional_answers_follow(comparer, s, ans) && #[trigger] verdicts_follow(
                    finalizer,
                    s,
                    fin,
                ) ==> accepted_below(ans, fin, wide(index) - 1) == accepted_below(ans, fin, wide(i) - 1),
        ensures
            i <= index,
            forall|j: usize|
                i <= j < index ==> #[trigger] call_ensures(comparer, (j, &at(s, j)), Ordering::Equal),
            forall|ans: spec_fn(int) -> Ordering, fin: spec_fn(int) -> bool|
                #[trigger] positional_answers_follow(comparer, s, ans) && #[trigger] verdicts_follow(
                    finalizer,
                    s,
                    fin,
                ) ==> accepted_below(ans, fin, wide(index) - 1) == None::<int>,
            forall|j: usize|
                #![trigger at(s, j)]
                #![trigger answers(j, Ordering::Equal)]
                i <= j <= index ==> answers(j, Ordering::Equal) && call_ensures(
                    finalizer,
                    (&at(s, j),),
                    false,
                ),
            i == 0 || exists|o: Ordering| o != Ordering::Equal && #[trigger] answers(before(i), o),
        decreases i,
    {
        if i == 0 {
            break;
        }
        let answer = comparer(i - 1, arr_like.get(i - 1));
        assert(call_ensures(comparer, (before(i), &at(s, before(i))), answer));
        match answer {
            Ordering::Equal => {
                i = i - 1;
                let accepted = finalizer(arr_like.get(i));
                assert(call_ensures(finalizer, (&at(s, i),), accepted));
                if accepted {
                    return Some(i);
                }
            },
            _ => {
                assert(answers(before(i), answer));
                break;
            },
        }
    }
    let lowest = i;
    // Go back up one if went too far:
    let first_answer = comparer(0, arr_like.get(0));
    match first_answer {
        Ordering::Equal => {},
        _ => {
            i = i + 1;
        },
    }
    proof {
        assert forall|ans: spec_fn(int) -> Ordering, fin: spec_fn(int) -> bool|
            #[trigger] positional_answers_follow(comparer, s, ans) && #[trigger] verdicts_follow(
                finalizer,
                s,
                fin,
            ) && ans(wide(index)) == Ordering::Equal implies finalized(ans, fin, s.len(), wide(index))
            == accepted_above(ans, fin, s.len(), wide(i)) by {
            assert forall|j: usize| i <= j <= index implies #[trigger] ans(wide(j)) == Ordering::Equal && !fin(
                wide(j),
            ) by {
                assert(call_ensures(finalizer, (&at(s, j),), false));
                if j < index {
                    assert(call_ensures(comparer, (j, &at(s, j)), Ordering::Equal));
                }
            }
            assert(call_ensures(finalizer, (&at(s, index),), false));
            lemma_accepted_above_skips(ans, fin, s.len(), i, index);
        }
        if answers_sorted(answers, s) {
            // Nothing below the run can match the sort key:
            assert forall|j: usize| j < lowest implies !#[trigger] answers(j, Ordering::Equal) by {
                let o = choose|o: Ordering| o != Ordering::Equal && #[trigger] answers(before(lowest), o);
                assert(answers(lowest, Ordering::Equal));
            }
        }
    }
    // Now go forward until finalizer is true, returning that index,
    // otherwise returning None if changes sort key or reaches end:
    loop
        invariant
            s == arr_like.items(),
            n == s.len(),
            index < n,
            lowest <= index,
            lowest <= i <= n,
            answers(index, Ordering::Equal),
            forall|j: usize| j < n ==> call_requires(comparer, (j, &at(s, j))),
            forall|j: usize| j < n ==> call_requires(finalizer, (&at(s, j),)),
            forall|j: usize, o: Ordering|
                j < n && call_ensures(comparer, (j, &at(s, j)), o) ==> answers(j, o),
            forall|j: usize|
                #![trigger at(s, j)]
                #![trigger answers(j, Ordering::Equal)]
                lowest <= j <= index ==> answers(j, Ordering::Equal) && call_ensures(
                    finalizer,
                    (&at(s, j),),
                    false,
                ),
            forall|j: usize|
                #![trigger at(s, j)]
                #![trigger answers(j, Ordering::Equal)]
                index < j < i ==> answers(j, Ordering::Equal) && call_ensures(
                    finalizer,
                    (&at(s, j),),
                    false,
                ),
            answers_sorted(answers, s) ==> forall|j: usize|
                j < lowest ==> !#[trigger] answers(j, Ordering::Equal),
            forall|ans: spec_fn(int) -> Ordering, fin: spec_fn(int) -> bool|
                #[trigger] positional_answers_follow(comparer, s, ans) && #[trigger] verdicts_follow(
                    finalizer,
                    s,
                    fin,
                ) && ans(wide(index)) == Ordering::Equal ==> finalized(ans, fin, s.len(), wide(index))
                    == accepted_above(ans, fin, s.len(), wide(i)),
        decreases n - i,
    {
        if i >= n {
            return None;
        }
        let answer = comparer(i, arr_like.get(i));
        assert(call_ensures(comparer, (i, &at(s, i)), answer));
        match answer {
            Ordering::Equal => {},
            _ => {
                proof {
                    if answers_sorted(answers, s) {
                        assert(answers(i, answer));
                        assert(answers(index, Ordering::Equal));
                        assert forall|j: usize|
                            j < n && answers(j, Ordering::Equal) implies call_ensures(
                            finalizer,
                            (&at(s, j),),
                            false,
                        ) by {
                            if i <= j {
                                assert(answers(i, answer));
                            }
                        }
                    }
                }
                return None;
            },
        }
        let accepted = finalizer(arr_like.get(i));
        assert(call_ensures(finalizer, (&at(s, i),), accepted));
        if accepted {
            return Some(i);
        }
        i = i + 1;
    }
}

/// Binary search for the desired item in the array.
/// Only returns None when the array is empty.
///
/// Arguments:
/// - arr_like: The array-like structure to search.
/// - comparer: `Fn(&Item)` -> "where to go from here"
///
/// ARR SMALLEST TO LARGEST: `$target.cmp($item_val)`
/// ARR LARGEST TO SMALLEST: `$item_val.cmp(&$target)`
///
/// Returns:
/// - Some(index) the index of the item in the array, OR THE CLOSEST.
/// - None if the item is not found.
pub fn binary_search_soft<Item, A: BinarySearchable<Item = Item>, C: Fn(&Item) -> Ordering>(
    arr_like: &A,
    comparer: C,
) -> (found: Option<usize>)
    requires
        forall|i: usize| i < arr_like.items().len() ==> call_requires(comparer, (&at(arr_like.items(), i),)),
    ensures
        found is None <==> arr_like.items().len() == 0,
        found matches Some(i) ==> i < arr_like.items().len(),
        found matches Some(i) ==> sorted_by(comparer, arr_like.items()) ==> {
            ||| call_ensures(comparer, (&at(arr_like.items(), i),), Ordering::Equal)
            ||| closest_without_match(comparer, arr_like.items(), i)
        },
        forall|ans: spec_fn(int) -> Ordering|
            #[trigger] answers_follow(comparer, arr_like.items(), ans) && arr_like.items().len() > 0
                ==> (found matches Some(i) && wide(i) == soft_end(ans, 0, arr_like.items().len() - 1, 0)),
{
    let ghost s = arr_like.items();
    if arr_like.is_empty() {
        return None;
    }
    let n = arr_like.len();
    let mut low: usize = 0;
    let mut high: usize = n - 1;
    let mut mid: usize = 0;
    while low <= high
        invariant
            s == arr_like.items(),
            n == s.len(),
            high < n,
            low <= high + 1,
            mid < n,
            forall|i: usize| i < n ==> call_requires(comparer, (&at(s, i),)),
            sorted_by(comparer, s) ==> forall|j: usize, o: Ordering|
                j < low && call_ensures(comparer, (&at(s, j),), o) ==> o == Ordering::Greater,
            sorted_by(comparer, s) ==> forall|j: usize, o: Ordering|
                high < j < n && call_ensures(comparer, (&at(s, j),), o) ==> o == Ordering::Less,
            low > high ==> (mid + 1 == low && call_ensures(comparer, (&at(s, mid),), Ordering::Greater))
                || (mid == high + 1 && call_ensures(comparer, (&at(s, mid),), Ordering::Less)),
            forall|ans: spec_fn(int) -> Ordering|
                #[trigger] answers_follow(comparer, s, ans) ==> soft_end(ans, wide(low), wide(high), wide(mid))
                    == soft_end(ans, 0, n - 1, 0),
        decreases high + 1 - low,
    {
        mid = low + (high - low) / 2;
        let answer = comparer(arr_like.get(mid));
        proof {
            assert(mid == (low + high) / 2);
            assert(call_ensures(comparer, (&at(s, mid),), answer));
        }
        match answer {
            Ordering::Greater => {
                proof {
                    if sorted_by(comparer, s) {
                        assert forall|j: usize, o: Ordering|
                            j <= mid && call_ensures(comparer, (&at(s, j),), o) implies o
                            == Ordering::Greater by {
                            assert(call_ensures(comparer, (&at(s, mid),), Ordering::Greater));
                        }
                    }
                }
                low = mid + 1;
            },
            Ordering::Less => {
                proof {
                    if sorted_by(comparer, s) {
                        assert forall|j: usize, o: Ordering|
                            mid <= j < n && call_ensures(comparer, (&at(s, j),), o) implies o
                            == Ordering::Less by {
                            assert(call_ensures(comparer, (&at(s, mid),), Ordering::Less));
                        }
                        if mid == 0 {
                            assert(closest_without_match(comparer, s, 0));
                        }
                    }
                }
                if mid == 0 {
                    return Some(0);
                }
                high = mid - 1;
            },
            Ordering::Equal => {
                return Some(mid);
            },
        }
    }
    proof {
        if sorted_by(comparer, s) {
            assert(closest_without_match(comparer, s, mid));
        }
    }
    Some(mid)
}

/// Every answer the comparer may give for the item at `i` is `ans(i)`.
pub open spec fn answers_follow<Item, C: Fn(&Item) -> Ordering>(
    comparer: C,
    s: Seq<Item>,
    ans: spec_fn(int) -> Ordering,
) -> bool {
    forall|i: usize, o: Ordering|
        i < s.len() && #[trigger] call_ensures(comparer, (&at(s, i),), o) ==> o == ans(wide(i))
}

/// Where the halving search over positions `low..=high` ends, given the answer `ans(i)`
/// for each position and `mid` being the last position probed: at a matching item, at position 0 when the target lies before it,
/// or else at the last position probed once the range is empty.
pub open spec fn soft_end(
    ans: spec_fn(int) -> Ordering,
    low: int,
    high: int,
    mid: int,
) -> int
    decreases high + 1 - low,
{
    if 0 <= low <= high {
        let m = (low + high) / 2;
        match ans(m) {
            Ordering::Greater => soft_end(ans, m + 1, high, m),
            Ordering::Less => if m == 0 {
                0
            } else {
                soft_end(ans, low, m - 1, m)
            },
            Ordering::Equal => m,
        }
    } else {
        mid
    }
}

/// No item matches the target, and `i` sits at the boundary where the items the
/// target lies beyond give way to the items it lies before: either the last of the
/// former or the first of the latter.
pub open spec fn closest_without_match<Item, C: Fn(&Item) -> Ordering>(
    comparer: C,
    s: Seq<Item>,
    i: usize,
) -> bool {
    &&& forall|j: usize| j < s.len() ==> !call_ensures(comparer, (&at(s, j),), Ordering::Equal)
    &&& forall|j: usize, o: Ordering|
        j < i && call_ensures(comparer, (&at(s, j),), o) ==> o == Ordering::Greater
    &&& forall|j: usize, o: Ordering|
        i < j < s.len() && call_ensures(comparer, (&at(s, j),), o) ==> o == Ordering::Less
}

} // verus!

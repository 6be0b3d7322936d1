use bitbazaar::binary_search::{binary_search_exact, binary_search_exact_with_siblings, binary_search_soft};

#[test]
fn test_binary_search_basic() {
    // Empty arrays shouldn't panic for any variation:
    assert_eq!(binary_search_exact(&[], |x| 5.cmp(x), |_| true), None);
    assert_eq!(
        binary_search_exact_with_siblings(&[], |_, x, _| 5.cmp(x), |_| true),
        None
    );
    assert_eq!(binary_search_soft(&[], |x| 5.cmp(x)), None);

    // 7 is missing, with exact should be None, with soft should be 5
    let arr = [1, 2, 3, 4, 5, 6, 8, 9, 10];
    assert_eq!(binary_search_exact(&arr, |x| 5.cmp(x), |_| true), Some(4));
    assert_eq!(binary_search_exact(&arr, |x| 1.cmp(x), |_| true), Some(0));
    assert_eq!(binary_search_exact(&arr, |x| 10.cmp(x), |_| true), Some(8));
    assert_eq!(binary_search_exact(&arr, |x| 7.cmp(x), |_| true), None);

    // With siblings just check they're being passed around correctly:
    assert_eq!(
        binary_search_exact_with_siblings(
            &arr,
            |prior, x, next| {
                if *x == 1 {
                    assert_eq!(prior, None);
                    assert_eq!(next, Some(&2));
                } else if *x == 10 {
                    assert_eq!(prior, Some(&9));
                    assert_eq!(next, None);
                } else if *x == 9 {
                    assert_eq!(prior, Some(&8));
                    assert_eq!(next, Some(&10));
                } else if *x == 8 {
                    assert_eq!(prior, Some(&6));
                    assert_eq!(next, Some(&9));
                } else {
                    // These are now all prior the gap so generic mapping:
                    assert_eq!(prior, Some(&arr[x - 2]));
                    assert_eq!(next, Some(&arr[*x]));
                }
                5.cmp(x)
            },
            |_| true
        ),
        Some(4)
    );

    // Nonexact:
    assert_eq!(binary_search_soft(&arr, |x| 5.cmp(x)), Some(4));
    assert_eq!(binary_search_soft(&arr, |x| 1.cmp(x)), Some(0));
    assert_eq!(binary_search_soft(&arr, |x| 10.cmp(x)), Some(8));
    assert_eq!(binary_search_soft(&arr, |x| 7.cmp(x)), Some(5));
    assert_eq!(binary_search_soft(&[], |x| 7.cmp(x)), None);
}

/// Check no panic when item doesn't exist but should've been at the start (historic bug)
#[test]
fn test_binary_search_missing_from_start() {
    let arr = [2, 3, 4, 5, 6, 7, 8, 9, 10];
    assert_eq!(binary_search_exact(&arr, |x| 1.cmp(x), |_| true), None);
    assert_eq!(binary_search_soft(&arr, |x| 1.cmp(x)), Some(0));
    assert_eq!(
        binary_search_exact_with_siblings(&arr, |_, x, _| 1.cmp(x), |_| true),
        None
    );
}

/// Check no panic when item doesn't exist but should've been at the end (historic bug)
#[test]
fn test_binary_search_missing_from_end() {
    let arr = [1, 2, 3, 4, 5, 6, 7, 8, 9];
    assert_eq!(binary_search_exact(&arr, |x| 10.cmp(x), |_| true), None);
    assert_eq!(binary_search_soft(&arr, |x| 10.cmp(x)), Some(8));
    assert_eq!(
        binary_search_exact_with_siblings(&arr, |_, x, _| 10.cmp(x), |_| true),
        None
    );
}

/// - Confirm when duplicates with the same sort key, finalizer solves it.
/// - Confirm when finalizer/array is dodgy and returns false for everything, just returns None.
#[test]
fn test_binary_search_finalizer() {
    struct Item {
        id: &'static str,
        sort_key: i32,
    }
    let arr = [
        Item { id: "b", sort_key: 2 },
        Item { id: "c", sort_key: 2 },
        Item { id: "d", sort_key: 2 },
        Item { id: "e", sort_key: 3 },
        Item { id: "f", sort_key: 4 },
        Item { id: "g", sort_key: 4 },
    ];

    assert_eq!(
        binary_search_exact(&arr, |x| 2.cmp(&x.sort_key), |x| x.id == "c"),
        Some(1)
    );
    assert_eq!(
        binary_search_exact_with_siblings(
            &arr,
            |_prior, x, _next| { 2.cmp(&x.sort_key) },
            |x| x.id == "c"
        ),
        Some(1)
    );

    assert_eq!(
        binary_search_exact(&arr, |x| 2.cmp(&x.sort_key), |x| x.id == "d"),
        Some(2)
    );
    assert_eq!(
        binary_search_exact_with_siblings(
            &arr,
            |_prior, x, _next| { 2.cmp(&x.sort_key) },
            |x| x.id == "d"
        ),
        Some(2)
    );

    assert_eq!(
        binary_search_exact(&arr, |x| 2.cmp(&x.sort_key), |x| x.id == "f"),
        None
    );
    assert_eq!(
        binary_search_exact_with_siblings(
            &arr,
            |_prior, x, _next| { 2.cmp(&x.sort_key) },
            |x| x.id == "f"
        ),
        None
    );
}

#[test]
fn binary_search_works_on_vecs() {
    let v: Vec<i32> = vec![10, 20, 30, 40];
    assert_eq!(binary_search_exact(&v, |x| 30.cmp(x), |_| true), Some(2));
    assert_eq!(binary_search_soft(&v, |x| 25.cmp(x)), Some(2));
    assert_eq!(binary_search_soft(&v, |x| 5.cmp(x)), Some(0));
    assert_eq!(binary_search_soft(&v, |x| 50.cmp(x)), Some(3));
}

#[test]
fn binary_search_descending_arrays() {
    // Largest to smallest: compare item to target.
    let arr = [9, 7, 5, 3, 1];
    assert_eq!(binary_search_exact(&arr, |x| x.cmp(&3), |_| true), Some(3));
    assert_eq!(binary_search_exact(&arr, |x| x.cmp(&4), |_| true), None);
}

#[test]
fn binary_search_single_element() {
    let arr = [42];
    assert_eq!(binary_search_exact(&arr, |x| 42.cmp(x), |_| true), Some(0));
    assert_eq!(binary_search_exact(&arr, |x| 41.cmp(x), |_| true), None);
    assert_eq!(binary_search_soft(&arr, |x| 1000.cmp(x)), Some(0));
    assert_eq!(
        binary_search_exact_with_siblings(
            &arr,
            |prior, x, next| {
                assert_eq!(prior, None);
                assert_eq!(next, None);
                42.cmp(x)
            },
            |_| true
        ),
        Some(0)
    );
}

#[test]
fn binary_search_finalizer_rejecting_all_equal_gives_none() {
    let arr = [1, 2, 2, 2, 3];
    assert_eq!(binary_search_exact(&arr, |x| 2.cmp(x), |_| false), None);
    assert_eq!(
        binary_search_exact_with_siblings(&arr, |_, x, _| 2.cmp(x), |_| false),
        None
    );
}

#[test]
fn test_binary_search_soft_ends_where_halving_ends() {
    // The search ends at the last middle probed: the upper neighbour here.
    assert_eq!(binary_search_soft(&[1, 3], |x| 2.cmp(x)), Some(1));
    assert_eq!(binary_search_soft(&[1, 2, 3, 4, 5, 6, 8, 9, 10], |x| 7.cmp(x)), Some(5));
    assert_eq!(binary_search_soft(&[10, 20, 30], |x| 25.cmp(x)), Some(2));
}

#[test]
fn test_sibling_search_ignoring_siblings_matches_exact() {
    let arr = [1, 2, 2, 2, 3, 5, 5, 8, 9];
    for target in 0..11 {
        for wanted in 0..arr.len() {
            let plain = binary_search_exact(&arr, |x| target.cmp(x), |x| std::ptr::eq(x, &arr[wanted]));
            let siblings = binary_search_exact_with_siblings(
                &arr,
                |_, x, _| target.cmp(x),
                |x| std::ptr::eq(x, &arr[wanted]),
            );
            assert_eq!(plain, siblings);
            if arr[wanted] == target {
                assert_eq!(plain, Some(wanted));
            }
        }
    }
}

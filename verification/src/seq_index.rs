use vstd::prelude::*;

verus! {

/// The element of `s` at a machine-sized position.
pub open spec fn at<T>(s: Seq<T>, i: usize) -> T {
    s[i as int]
}

/// The element just before position `i`, if there is one.
pub open spec fn prior_of<'a, T>(s: &'a Seq<T>, i: usize) -> Option<&'a T> {
    if i == 0 {
        None
    } else {
        Some(&s[i - 1])
    }
}

/// The element just after position `i`, if there is one.
pub open spec fn next_of<'a, T>(s: &'a Seq<T>, i: usize) -> Option<&'a T> {
    if i + 1 >= s.len() {
        None
    } else {
        Some(&s[i + 1])
    }
}

/// A machine-sized position as a mathematical integer.
pub open spec fn wide(i: usize) -> int {
    i as int
}

/// A found position as a mathematical integer.
pub open spec fn wide_found(found: Option<usize>) -> Option<int> {
    match found {
        Some(i) => Some(i as int),
        None => None,
    }
}

/// The position just after `i` (meaningful when `i < usize::MAX`).
pub open spec fn after(i: usize) -> usize {
    (i + 1) as usize
}

/// The position just before `i` (meaningful when `i > 0`).
pub open spec fn before(i: usize) -> usize {
    (i - 1) as usize
}

} // verus!

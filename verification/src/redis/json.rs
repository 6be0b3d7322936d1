use vstd::prelude::*;

verus! {

/// A wrapper on an arbitrary json object to allow reading and writing to redis.
/// Access the inner with .0.
#[derive(Debug, Clone, PartialEq, Eq)]
pub struct RedisJson<T>(pub T);

/// A borrowed wrapper on an arbitrary json object to writing to redis.
/// Use this over [`RedisJson`] when you don't want to own the data and prevent unnecessary cloning.
/// Access the inner with .0.
#[derive(Debug)]
pub struct RedisJsonBorrowed<'a, T>(pub &'a T);

} // verus!

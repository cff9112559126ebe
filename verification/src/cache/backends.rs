//! The storage backends that the cache writes to.
use vstd::prelude::*;

use super::Error;
use crate::text::text_pairs;

verus! {

/// What a backend holds: each value under its collection and its key within that collection.
pub type Entries = Map<(Seq<char>, Seq<char>), Seq<char>>;

/// The keys of the collection `coll`.
pub open spec fn collection_keys(m: Entries, coll: Seq<char>) -> Set<Seq<char>> {
    Set::new(|key: Seq<char>| m.contains_key((coll, key)))
}

/// The value under `coll` and `key`, if there is one.
pub open spec fn entry(m: Entries, coll: Seq<char>, key: Seq<char>) -> Option<Seq<char>> {
    if m.contains_key((coll, key)) {
        Some(m[(coll, key)])
    } else {
        None
    }
}

/// Whether `pairs` lists the collection `coll` of `m` completely, each key once with its
/// value, in some order.
pub open spec fn lists_collection(m: Entries, coll: Seq<char>, pairs: Seq<(Seq<char>, Seq<char>)>) -> bool {
    &&& forall|i: int| 0 <= i < pairs.len() ==> #[trigger] entry(m, coll, pairs[i].0) == Some(pairs[i].1)
    &&& forall|i: int, j: int| 0 <= i < j < pairs.len() ==> pairs[i].0 != pairs[j].0
    &&& forall|key: Seq<char>| #[trigger] m.contains_key((coll, key)) ==> exists|i: int|
        0 <= i < pairs.len() && pairs[i].0 == key
}

/// A storage backend: a store of text values, each under a collection and a key.
///
/// The store's state is `entries`; every call may also fail (the backend is reached over
/// the network), with an `Error::Redis`, and then nothing is claimed of what it holds.
pub trait Backend: Sized {
    /// The entries that this backend holds. A verified implementation defines this function,
    /// and its calls are held to the contracts below. An implementation written in plain Rust
    /// cannot name the type of the entries and keeps the default, an unknown function of the
    /// backend's value; its calls are then not checked against these contracts, and a backend
    /// that reaches shared state through a handle meets them only in that it behaves as a map.
    closed spec fn entries(&self) -> Entries {
        vstd::pervasive::arbitrary::<spec_fn(Self) -> Entries>()(*self)
    }

    /// Gets the value under `coll` and `id`.
    fn get(&self, coll: &str, id: &str) -> (r: Result<String, Error>)
        ensures
            r matches Ok(v) ==> entry(self.entries(), coll@, id@) == Some(v@),
            r matches Err(e) ==> e is Redis,
    ;

    /// Gets every key of `coll` with its value.
    fn get_all(&self, coll: &str) -> (r: Result<Vec<(String, String)>, Error>)
        ensures
            r matches Ok(v) ==> lists_collection(self.entries(), coll@, text_pairs(v@)),
            r matches Err(e) ==> e is Redis,
    ;

    /// Sets the value under `coll` and `key`.
    fn set(&mut self, coll: &str, key: &str, value: &str) -> (r: Result<(), Error>)
        ensures
            r is Ok ==> final(self).entries() == old(self).entries().insert((coll@, key@), value@),
            r matches Err(e) ==> e is Redis,
    ;

    /// Removes the value under `coll` and `key`.
    fn remove(&mut self, coll: &str, key: &str) -> (r: Result<(), Error>)
        ensures
            r is Ok ==> final(self).entries() == old(self).entries().remove((coll@, key@)),
            r matches Err(e) ==> e is Redis,
    ;

    /// Counts the keys of `coll`.
    fn size(&self, coll: &str) -> (r: Result<u64, Error>)
        ensures
            r matches Ok(n) ==> n == collection_keys(self.entries(), coll@).len(),
            r matches Err(e) ==> e is Redis,
    ;
}

} // verus!

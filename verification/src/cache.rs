//! Stores of records already fetched, one store for each kind of record.

use vstd::prelude::*;
use vstd::hash_map::StringHashMap;
use crate::records::{DiaryPage, FetchError, FilmResult, ImageSet, ProfileResult};

verus! {

/// A record that can be copied out of a store: the copy holds what the
/// record holds.
pub trait Record: View + Sized {
    fn copy(&self) -> (out: Self)
        ensures
            out@ == self@,
    ;
}

impl Record for DiaryPage {
    fn copy(&self) -> (out: Self) {
        self.clone()
    }
}

impl Record for FilmResult {
    fn copy(&self) -> (out: Self) {
        self.clone()
    }
}

impl Record for ProfileResult {
    fn copy(&self) -> (out: Self) {
        self.clone()
    }
}

impl Record for ImageSet {
    fn copy(&self) -> (out: Self) {
        self.clone()
    }
}

/// What a lookup that fetches on a miss leaves in the store, and what it
/// answers: on a hit the store as it was and the record stored; on a miss
/// the store with the fresh record under the key, and that record.
pub open spec fn fetched<T>(store: Map<Seq<char>, T>, key: Seq<char>, fresh: T) -> (
    Map<Seq<char>, T>,
    T,
) {
    if store.contains_key(key) {
        (store, store[key])
    } else {
        (store.insert(key, fresh), fresh)
    }
}

/// A second lookup under the same key answers as the first did and leaves
/// the store as the first left it, whatever a second fetch would have
/// brought: the second lookup does not fetch.
pub proof fn lemma_second_lookup_hits<T>(
    store: Map<Seq<char>, T>,
    key: Seq<char>,
    first: T,
    second: T,
)
    ensures
        fetched(store, key, first).0.contains_key(key),
        fetched(fetched(store, key, first).0, key, second) == fetched(store, key, first),
{
}

/// A lookup leaves every other key as it was.
pub proof fn lemma_lookup_keeps_others<T>(
    store: Map<Seq<char>, T>,
    key: Seq<char>,
    fresh: T,
    other: Seq<char>,
)
    requires
        other != key,
    ensures
        fetched(store, key, fresh).0.contains_key(other) == store.contains_key(other),
        store.contains_key(other) ==> fetched(store, key, fresh).0[other] == store[other],
{
}

/// Records kept under the exact text they were asked by. Nothing is ever
/// dropped, and a key holds one record at a time.
#[verifier::reject_recursive_types(V)]
pub struct Cache<V> {
    entries: StringHashMap<V>,
}

impl<V: View> View for Cache<V> {
    type V = Map<Seq<char>, V::V>;

    closed spec fn view(&self) -> Map<Seq<char>, V::V> {
        self.entries@.map_values(|v: V| v@)
    }
}

impl<V: Record> Cache<V> {
    /// A store with nothing in it.
    pub fn new() -> (out: Self)
        ensures
            out@ == Map::<Seq<char>, V::V>::empty(),
    {
        let out = Cache { entries: StringHashMap::new() };
        assert(out@ =~= Map::<Seq<char>, V::V>::empty());
        out
    }

    /// Tells whether a record is kept under `key`.
    pub fn contains(&self, key: &str) -> (b: bool)
        ensures
            b == self@.contains_key(key@),
    {
        self.entries.contains_key(key)
    }

    /// A copy of the record kept under `key`, if there is one.
    pub fn lookup(&self, key: &str) -> (out: Option<V>)
        ensures
            out is Some <==> self@.contains_key(key@),
            out is Some ==> out->0@ == self@[key@],
    {
        match self.entries.get(key) {
            Some(v) => Some(v.copy()),
            None => None,
        }
    }

    /// Keeps `value` under `key`, in place of what was kept there.
    pub fn store(&mut self, key: String, value: V)
        ensures
            final(self)@ == old(self)@.insert(key@, value@),
    {
        self.entries.insert(key, value);
        assert(self@ =~= old(self)@.insert(key@, value@));
    }

    /// Takes in what a fetch for `key` brought: a record is kept under `key`
    /// and a copy of it handed back; an error is handed back and the store
    /// stays as it was.
    pub fn keep_fetched(&mut self, key: String, fetched: Result<V, FetchError>) -> (out: Result<
        V,
        FetchError,
    >)
        ensures
            fetched matches Ok(v) ==> out matches Ok(c) && c@ == v@ && final(self)@ == old(
                self,
            )@.insert(key@, v@),
            fetched matches Err(e) ==> out matches Err(f) && f == e && final(self)@ == old(self)@,
    {
        match fetched {
            Ok(v) => {
                let c = v.copy();
                self.store(key, v);
                Ok(c)
            },
            Err(e) => Err(e),
        }
    }

    /// Answers with a copy of the record kept under `key`. Where none is
    /// kept, calls `fetch`, keeps what it brings under `key` and answers with
    /// that. `fetch` is called on a miss only, so on a hit nothing is asked of
    /// it.
    pub fn get_or_fetch<F: FnOnce() -> V>(&mut self, key: &str, fetch: F) -> (out: V)
        requires
            !old(self)@.contains_key(key@) ==> fetch.requires(()),
        ensures
            old(self)@.contains_key(key@) ==> out@ == old(self)@[key@] && final(self)@ == old(
                self,
            )@,
            !old(self)@.contains_key(key@) ==> exists|fresh: V|
                fetch.ensures((), fresh) && (final(self)@, out@) == fetched(
                    old(self)@,
                    key@,
                    fresh@,
                ),
    {
        match self.lookup(key) {
            Some(v) => v,
            None => {
                let fresh = fetch();
                let out = fresh.copy();
                self.store(key.to_owned(), fresh);
                assert(fetch.ensures((), fresh) && (self@, out@) == fetched(
                    old(self)@,
                    key@,
                    fresh@,
                ));
                out
            },
        }
    }
}

/// The stores of a running service: one for each kind of record, none
/// touching another.
pub struct Data {
    pub diary_cache: Cache<DiaryPage>,
    pub film_cache: Cache<FilmResult>,
    pub poster_cache: Cache<ImageSet>,
    pub backdrop_cache: Cache<ImageSet>,
    pub profile_cache: Cache<ProfileResult>,
}

impl Default for Data {
    fn default() -> (out: Self)
        ensures
            out.diary_cache@ == Map::<Seq<char>, crate::records::DiaryPageView>::empty(),
            out.film_cache@ == Map::<Seq<char>, crate::records::Film>::empty(),
            out.poster_cache@ == Map::<Seq<char>, crate::records::Images>::empty(),
            out.backdrop_cache@ == Map::<Seq<char>, crate::records::Images>::empty(),
            out.profile_cache@ == Map::<Seq<char>, crate::records::Profile>::empty(),
    {
        Data {
            diary_cache: Cache::new(),
            film_cache: Cache::new(),
            poster_cache: Cache::new(),
            backdrop_cache: Cache::new(),
            profile_cache: Cache::new(),
        }
    }
}

} // verus!

//! A cache of GPU side resources that forgets entries which go unused for too long.
use std::collections::HashMap;
use std::collections::hash_map::Entry;
use vstd::prelude::*;
use vstd::std_specs::hash::spec_keys_iter;
use vstd::std_specs::iter::IteratorSpec;

verus! {

broadcast use vstd::std_specs::hash::group_hash_axioms;

/// The number of cache updates an entry may go unused and still be kept.
pub const MAX_UNUSED_UPDATES: u32 = 60;

/// An item of the cache together with the number of updates since it was last used.
pub struct CachedResource<T> {
    pub resource: T,
    pub time_since_used: u32,
}

/// A keyed cache: each update ages every entry by one, and entries unused for more
/// than [`MAX_UNUSED_UPDATES`] updates are dropped.
pub struct ResourceCache<T> {
    resources: HashMap<u32, CachedResource<T>>,
}

/// What one cache update does to the cache's contents: every entry is one update
/// older, and the entries that are then older than the limit are gone.
pub open spec fn aged<T>(m: Map<u32, CachedResource<T>>) -> Map<u32, CachedResource<T>> {
    Map::new(
        |k: u32| m.contains_key(k) && m[k].time_since_used < MAX_UNUSED_UPDATES,
        |k: u32| CachedResource { resource: m[k].resource, time_since_used: (m[k].time_since_used + 1) as u32 },
    )
}

/// The contents with every entry one update older (nothing removed).
pub open spec fn incremented<T>(m: Map<u32, CachedResource<T>>) -> Map<u32, CachedResource<T>> {
    Map::new(
        |k: u32| m.contains_key(k),
        |k: u32| CachedResource { resource: m[k].resource, time_since_used: (m[k].time_since_used + 1) as u32 },
    )
}

/// The contents without the entries that went unused for more than the limit.
pub open spec fn without_stale<T>(m: Map<u32, CachedResource<T>>) -> Map<u32, CachedResource<T>> {
    m.restrict(Set::new(|k: u32| m.contains_key(k) && m[k].time_since_used <= MAX_UNUSED_UPDATES))
}

/// The contents after `n` cache updates.
pub open spec fn aged_times<T>(m: Map<u32, CachedResource<T>>, n: nat) -> Map<u32, CachedResource<T>>
    decreases n,
{
    if n == 0 {
        m
    } else {
        aged(aged_times(m, (n - 1) as nat))
    }
}

/// After any cache update, no entry held has gone unused for more than the limit.
pub proof fn lemma_update_bounds_age<T>(m: Map<u32, CachedResource<T>>)
    ensures
        forall|k: u32| #[trigger] aged(m).contains_key(k) ==> aged(m)[k].time_since_used <= MAX_UNUSED_UPDATES,
{
}

/// A resource added to the cache and then left unused is kept for exactly
/// [`MAX_UNUSED_UPDATES`] updates: after `n` of them it is still there with the
/// count `n` as long as `n` is at most the limit, and it is gone after more.
pub proof fn lemma_entry_lifetime<T>(m: Map<u32, CachedResource<T>>, key: u32, resource: T, n: nat)
    ensures
        n <= MAX_UNUSED_UPDATES ==> {
            let after = aged_times(m.insert(key, CachedResource { resource, time_since_used: 0 }), n);
            &&& after.contains_key(key)
            &&& after[key] == CachedResource { resource, time_since_used: n as u32 }
        },
        n > MAX_UNUSED_UPDATES ==> !aged_times(
            m.insert(key, CachedResource { resource, time_since_used: 0 }),
            n,
        ).contains_key(key),
    decreases n,
{
    if n > 0 {
        lemma_entry_lifetime(m, key, resource, (n - 1) as nat);
    }
}

impl<T> View for ResourceCache<T> {
    type V = Map<u32, CachedResource<T>>;

    closed spec fn view(&self) -> Map<u32, CachedResource<T>> {
        self.resources@
    }
}

impl<T> ResourceCache<T> {
    /// Creates an empty cache.
    pub fn new() -> (cache: Self)
        ensures
            cache@ == Map::<u32, CachedResource<T>>::empty(),
    {
        Self { resources: HashMap::new() }
    }

    fn collect_keys(&self) -> (keys: Vec<u32>)
        ensures
            keys@.to_set() == self@.dom(),
            keys@.no_duplicates(),
    {
        let mut keys: Vec<u32> = Vec::new();
        let ghost all = spec_keys_iter(&self.resources).remaining();
        for k in it: self.resources.keys()
            invariant
                it.seq() == all,
                keys@.len() == it.index(),
                forall|i: int| 0 <= i < it.index() ==> keys@[i] == *it.seq()[i],
        {
            keys.push(*k);
        }
        assert(keys@ =~= all.unref());
        keys
    }

    /// Ages every entry by one update and then drops the entries that went unused
    /// for more than [`MAX_UNUSED_UPDATES`] updates.
    pub fn cache_update(&mut self)
        requires
            forall|k: u32| #[trigger] old(self)@.contains_key(k) ==> old(self)@[k].time_since_used < u32::MAX,
        ensures
            final(self)@ == aged(old(self)@),
    {
        self.increment_all();
        self.cahce_cleanup();
        assert(self@ =~= aged(old(self)@));
    }

    fn increment_all(&mut self)
        requires
            forall|k: u32| #[trigger] old(self)@.contains_key(k) ==> old(self)@[k].time_since_used < u32::MAX,
        ensures
            final(self)@ == incremented(old(self)@),
    {
        let keys = self.collect_keys();
        let ghost start = self@;
        let mut i: usize = 0;
        while i < keys.len()
            invariant
                0 <= i <= keys@.len(),
                keys@.to_set() == start.dom(),
                keys@.no_duplicates(),
                self@.dom() == start.dom(),
                forall|k: u32| #[trigger] start.contains_key(k) ==> start[k].time_since_used < u32::MAX,
                forall|j: int| 0 <= j < i ==> #[trigger] self@[keys@[j]] == incremented(start)[keys@[j]],
                forall|j: int| i <= j < keys@.len() ==> #[trigger] self@[keys@[j]] == start[keys@[j]],
            decreases keys@.len() - i,
        {
            let key = keys[i];
            proof {
                assert(keys@.contains(key));
                assert(keys@.to_set().contains(key));
            }
            match self.resources.entry(key) {
                Entry::Occupied(e) => {
                    let item = e.into_mut();
                    item.time_since_used = item.time_since_used + 1;
                },
                Entry::Vacant(_) => {},
            }
            proof {
                assert forall|j: int| i < j < keys@.len() implies #[trigger] self@[keys@[j]] == start[keys@[j]] by {
                    assert(keys@[j] != keys@[i as int]);
                }
                assert forall|j: int| 0 <= j < i implies #[trigger] self@[keys@[j]] == incremented(start)[keys@[j]] by {
                    assert(keys@[j] != keys@[i as int]);
                }
            }
            i = i + 1;
        }
        proof {
            assert forall|k: u32| self@.contains_key(k) implies self@[k] == incremented(start)[k] by {
                assert(keys@.to_set().contains(k));
                let j = keys@.index_of(k);
                assert(self@[keys@[j]] == incremented(start)[keys@[j]]);
            }
        }
        assert(self@ =~= incremented(start));
    }

    /// Drops the entries that went unused for more than [`MAX_UNUSED_UPDATES`] updates.
    fn cahce_cleanup(&mut self)
        ensures
            final(self)@ == without_stale(old(self)@),
    {
        let keys = self.collect_keys();
        let ghost start = self@;
        let mut i: usize = 0;
        while i < keys.len()
            invariant
                0 <= i <= keys@.len(),
                keys@.to_set() == start.dom(),
                keys@.no_duplicates(),
                forall|k: u32| #[trigger] self@.contains_key(k) <==> (start.contains_key(k) && (
                    keys@.subrange(0, i as int).contains(k) ==> start[k].time_since_used <= MAX_UNUSED_UPDATES)),
                forall|k: u32| #[trigger] self@.contains_key(k) ==> self@[k] == start[k],
            decreases keys@.len() - i,
        {
            let key = keys[i];
            let ghost prev = self@;
            let stale = match self.resources.get(&key) {
                Some(item) => item.time_since_used > MAX_UNUSED_UPDATES,
                None => false,
            };
            if stale {
                self.resources.remove(&key);
            }
            proof {
                let done = keys@.subrange(0, i as int);
                let now = keys@.subrange(0, i + 1);
                assert(now =~= done.push(key));
                assert(keys@.to_set().contains(key));
                assert(!done.contains(key)) by {
                    if done.contains(key) {
                        let j = done.index_of(key);
                        assert(keys@[j] == keys@[i as int]);
                    }
                }
                assert(stale == (prev.contains_key(key) && prev[key].time_since_used > MAX_UNUSED_UPDATES));
                if stale {
                    assert(self@ == prev.remove(key));
                } else {
                    assert(self@ == prev);
                }
                assert forall|k: u32| #[trigger] self@.contains_key(k) <==> (start.contains_key(k) && (
                    now.contains(k) ==> start[k].time_since_used <= MAX_UNUSED_UPDATES)) by {
                    if k != key {
                        if now.contains(k) {
                            let j = now.index_of(k);
                            assert(done[j] == k);
                        }
                        if done.contains(k) {
                            let j = done.index_of(k);
                            assert(now[j] == k);
                        }
                        assert(self@.contains_key(k) == prev.contains_key(k));
                    } else {
                        assert(now[i as int] == key);
                        assert(start.contains_key(key));
                        assert(prev.contains_key(key));
                    }
                }
            }
            i = i + 1;
        }
        assert(keys@.subrange(0, keys@.len() as int) =~= keys@);
        assert forall|k: u32| #[trigger] start.contains_key(k) implies keys@.contains(k) by {
            assert(keys@.to_set().contains(k));
        }
        assert(self@ =~= without_stale(start));
    }

    /// Stores a resource under the key as just used, replacing any entry the key had.
    pub fn add_item(&mut self, resource: T, key: u32)
        ensures
            final(self)@ == old(self)@.insert(key, CachedResource { resource, time_since_used: 0 }),
    {
        let cache_item = CachedResource { resource, time_since_used: 0 };
        self.resources.insert(key, cache_item);
    }

    /// Marks the entry stored under the key as just used. Returns whether there is
    /// one; the caller adds the resource when there is not.
    pub fn touch(&mut self, key: u32) -> (present: bool)
        ensures
            present == old(self)@.contains_key(key),
            present ==> final(self)@ == old(self)@.insert(
                key,
                CachedResource { resource: old(self)@[key].resource, time_since_used: 0 },
            ),
            !present ==> final(self)@ == old(self)@,
    {
        match self.get_mut(key) {
            Some(item) => {
                item.time_since_used = 0;
                true
            },
            None => false,
        }
    }

    /// Looks up the entry stored under the key.
    pub fn get(&self, key: u32) -> (item: Option<&CachedResource<T>>)
        ensures
            match item {
                Some(v) => self@.contains_key(key) && *v == self@[key],
                None => !self@.contains_key(key),
            },
    {
        self.resources.get(&key)
    }

    /// Gives mutable access to the entry stored under the key.
    pub fn get_mut(&mut self, key: u32) -> (item: Option<&mut CachedResource<T>>)
        ensures
            match item {
                Some(v) => old(self)@.contains_key(key) && *v == old(self)@[key]
                    && final(self)@ == old(self)@.insert(key, *final(v)),
                None => !old(self)@.contains_key(key) && final(self)@ == old(self)@,
            },
    {
        match self.resources.entry(key) {
            Entry::Occupied(e) => Some(e.into_mut()),
            Entry::Vacant(_) => None,
        }
    }
}

impl<T> std::ops::Index<u32> for ResourceCache<T> {
    type Output = CachedResource<T>;

    /// The entry stored under the key; the key must be present.
    fn index(&self, index: u32) -> (item: &CachedResource<T>)
        ensures
            *item == self@[index],
    {
        self.get(index).unwrap()
    }
}

impl<T> vstd::std_specs::core::IndexSpecImpl<u32> for ResourceCache<T> {
    open spec fn index_req(&self, index: &u32) -> bool {
        self@.contains_key(*index)
    }
}

} // verus!

//! A cache of resolved addresses. An entry is fresh for a fixed time after
//! it was stored; a stale entry stays where it is until the same key is
//! resolved again. Only IPv4 addresses are stored.
//!
//! The cache reads no clock and resolves nothing itself: the caller hands in
//! the time, in nanoseconds on a clock of its own that does not run
//! backwards, and the candidates that a resolution gave.

use vstd::prelude::*;
use crate::addr::SocketAddress;

verus! {

/// How long an entry is fresh: 100 seconds, in nanoseconds.
pub const FRESH_NANOS: u64 = 100_000_000_000;

/// Why a resolution gave no address.
#[derive(Clone, Copy, Debug, PartialEq, Eq, Structural)]
pub enum ResolveError {
    /// No candidate was an IPv4 address.
    NoAddressFound,
}

impl ResolveError {
    /// The error in words.
    pub fn message(&self) -> (r: &'static str)
        ensures
            r@ == "SocketAddr not found"@,
    {
        "SocketAddr not found"
    }
}

/// One resolved key.
pub struct CacheEntry {
    pub key: String,
    pub addr: SocketAddress,
    pub stamp: u64,
}

/// The cache: at most one entry for each key.
pub struct DnsCache {
    entries: Vec<CacheEntry>,
}

/// The time that has passed at `now` since `stamp`; none where `now` lies
/// before `stamp`.
pub open spec fn elapsed(stamp: u64, now: u64) -> nat {
    if now >= stamp {
        (now - stamp) as nat
    } else {
        0
    }
}

/// What a lookup of `key` at the time `now` finds in the entries `m`: the
/// address stored under `key`, if it was stored less than 100 seconds ago.
pub open spec fn fresh_hit(
    m: Map<Seq<char>, (SocketAddress, u64)>,
    key: Seq<char>,
    now: u64,
) -> Option<SocketAddress> {
    if m.contains_key(key) && elapsed(m[key].1, now) < FRESH_NANOS {
        Some(m[key].0)
    } else {
        None
    }
}

/// Whether `r` is the first IPv4 address among `candidates`, or `None` where
/// they hold none.
pub open spec fn is_first_ipv4(candidates: Seq<SocketAddress>, r: Option<SocketAddress>) -> bool {
    match r {
        None => forall|i: int| 0 <= i < candidates.len() ==> !(candidates[i] is V4),
        Some(a) => exists|i: int|
            0 <= i < candidates.len() && candidates[i] == a && a is V4 && forall|j: int|
                0 <= j < i ==> !(candidates[j] is V4),
    }
}

/// Whether every address in the entries `m` is an IPv4 address.
pub open spec fn only_ipv4(m: Map<Seq<char>, (SocketAddress, u64)>) -> bool {
    forall|k: Seq<char>| m.contains_key(k) ==> (#[trigger] m[k]).0 is V4
}

/// The entries after a resolution of `key` at the time `now` that gave the
/// address `r`: where it gave one, it stands under `key` with the time.
pub open spec fn stored(
    m: Map<Seq<char>, (SocketAddress, u64)>,
    key: Seq<char>,
    r: Option<SocketAddress>,
    now: u64,
) -> Map<Seq<char>, (SocketAddress, u64)> {
    match r {
        Some(a) => m.insert(key, (a, now)),
        None => m,
    }
}

spec fn has_key(s: Seq<CacheEntry>, key: Seq<char>) -> bool {
    exists|i: int| 0 <= i < s.len() && (#[trigger] s[i]).key@ == key
}

spec fn index_of(s: Seq<CacheEntry>, key: Seq<char>) -> int {
    choose|i: int| 0 <= i < s.len() && (#[trigger] s[i]).key@ == key
}

spec fn distinct_keys(s: Seq<CacheEntry>) -> bool {
    forall|i: int, j: int|
        0 <= i < s.len() && 0 <= j < s.len() && i != j ==> (#[trigger] s[i]).key@ != (
        #[trigger] s[j]).key@
}

spec fn all_ipv4(s: Seq<CacheEntry>) -> bool {
    forall|i: int| 0 <= i < s.len() ==> (#[trigger] s[i]).addr is V4
}

spec fn entries_map(s: Seq<CacheEntry>) -> Map<Seq<char>, (SocketAddress, u64)> {
    Map::new(
        |k: Seq<char>| has_key(s, k),
        |k: Seq<char>| (s[index_of(s, k)].addr, s[index_of(s, k)].stamp),
    )
}

proof fn lemma_entry_at(s: Seq<CacheEntry>, i: int)
    requires
        distinct_keys(s),
        0 <= i < s.len(),
    ensures
        has_key(s, s[i].key@),
        index_of(s, s[i].key@) == i,
        entries_map(s).contains_key(s[i].key@),
        entries_map(s)[s[i].key@] == (s[i].addr, s[i].stamp),
{
    let k = s[i].key@;
    assert(has_key(s, k));
    let j = index_of(s, k);
    assert(0 <= j < s.len() && s[j].key@ == k);
}

proof fn lemma_replaced(s: Seq<CacheEntry>, i: int, e: CacheEntry)
    requires
        distinct_keys(s),
        0 <= i < s.len(),
        e.key@ == s[i].key@,
    ensures
        distinct_keys(s.update(i, e)),
        all_ipv4(s) && e.addr is V4 ==> all_ipv4(s.update(i, e)),
        entries_map(s.update(i, e)) == entries_map(s).insert(e.key@, (e.addr, e.stamp)),
{
    let t = s.update(i, e);
    assert forall|j: int| 0 <= j < s.len() implies (#[trigger] t[j]).key@ == s[j].key@ by {}
    assert(distinct_keys(t));
    let m = entries_map(s).insert(e.key@, (e.addr, e.stamp));
    assert forall|k: Seq<char>| entries_map(t).contains_key(k) <==> m.contains_key(k) by {
        if has_key(t, k) {
            let j = index_of(t, k);
            assert(s[j].key@ == k);
        }
        if has_key(s, k) {
            let j = index_of(s, k);
            assert(t[j].key@ == k);
        }
        if k == e.key@ {
            assert(t[i].key@ == k);
        }
    }
    assert forall|k: Seq<char>| entries_map(t).contains_key(k) implies entries_map(t)[k]
        == m[k] by {
        let j = index_of(t, k);
        assert(t[j].key@ == k);
        lemma_entry_at(t, j);
        if j != i {
            assert(s[j].key@ == k);
            lemma_entry_at(s, j);
        }
    }
    assert(entries_map(t) =~= m);
}

proof fn lemma_appended(s: Seq<CacheEntry>, e: CacheEntry)
    requires
        distinct_keys(s),
        !has_key(s, e.key@),
    ensures
        distinct_keys(s.push(e)),
        all_ipv4(s) && e.addr is V4 ==> all_ipv4(s.push(e)),
        entries_map(s.push(e)) == entries_map(s).insert(e.key@, (e.addr, e.stamp)),
{
    let t = s.push(e);
    let n = s.len() as int;
    assert forall|j: int| 0 <= j < s.len() implies (#[trigger] t[j]) == s[j] by {}
    assert forall|i: int, j: int| 0 <= i < t.len() && 0 <= j < t.len() && i != j implies (
    #[trigger] t[i]).key@ != (#[trigger] t[j]).key@ by {
        if i < n && j < n {
            assert(s[i].key@ != s[j].key@);
        } else if i < n {
            assert(s[i].key@ != e.key@);
        } else {
            assert(s[j].key@ != e.key@);
        }
    }
    let m = entries_map(s).insert(e.key@, (e.addr, e.stamp));
    assert forall|k: Seq<char>| entries_map(t).contains_key(k) <==> m.contains_key(k) by {
        if has_key(t, k) {
            let j = index_of(t, k);
            if j < n {
                assert(s[j].key@ == k);
            }
        }
        if has_key(s, k) {
            let j = index_of(s, k);
            assert(t[j].key@ == k);
        }
        if k == e.key@ {
            assert(t[n].key@ == k);
        }
    }
    assert forall|k: Seq<char>| entries_map(t).contains_key(k) implies entries_map(t)[k]
        == m[k] by {
        let j = index_of(t, k);
        assert(t[j].key@ == k);
        lemma_entry_at(t, j);
        if j < n {
            assert(s[j].key@ == k);
            lemma_entry_at(s, j);
        }
    }
    assert(entries_map(t) =~= m);
}

/// The first IPv4 address among `candidates`.
pub fn first_ipv4(candidates: &[SocketAddress]) -> (r: Option<SocketAddress>)
    ensures
        is_first_ipv4(candidates@, r),
{
    let mut i: usize = 0;
    while i < candidates.len()
        invariant
            i <= candidates.len(),
            forall|j: int| 0 <= j < i ==> !(candidates@[j] is V4),
        decreases candidates.len() - i,
    {
        if candidates[i].is_ipv4() {
            return Some(candidates[i]);
        }
        i += 1;
    }
    None
}

impl DnsCache {
    /// The entries: for each key the address stored under it and the time
    /// at which it was stored.
    pub closed spec fn view(&self) -> Map<Seq<char>, (SocketAddress, u64)> {
        entries_map(self.entries@)
    }

    /// No key has two entries, and every address is an IPv4 address.
    pub closed spec fn wf(&self) -> bool {
        distinct_keys(self.entries@) && all_ipv4(self.entries@)
    }

    /// A cache in good order holds IPv4 addresses only.
    pub proof fn law_only_ipv4_is_cached(&self)
        requires
            self.wf(),
        ensures
            only_ipv4(self@),
    {
        let s = self.entries@;
        assert forall|k: Seq<char>| self@.contains_key(k) implies (#[trigger] self@[k]).0 is V4 by {
            let j = index_of(s, k);
            assert(s[j].key@ == k);
        }
    }

    /// An empty cache.
    pub fn new() -> (r: Self)
        ensures
            r.wf(),
            r@ == Map::<Seq<char>, (SocketAddress, u64)>::empty(),
    {
        let r = DnsCache { entries: Vec::new() };
        assert(r@ =~= Map::<Seq<char>, (SocketAddress, u64)>::empty());
        r
    }

    fn position(&self, key: &String) -> (r: Option<usize>)
        requires
            self.wf(),
        ensures
            match r {
                Some(i) => i < self.entries@.len() && self.entries@[i as int].key@ == key@,
                None => !has_key(self.entries@, key@),
            },
    {
        let mut i: usize = 0;
        while i < self.entries.len()
            invariant
                i <= self.entries@.len(),
                forall|j: int| 0 <= j < i ==> (#[trigger] self.entries@[j]).key@ != key@,
            decreases self.entries@.len() - i,
        {
            if self.entries[i].key == *key {
                return Some(i);
            }
            i += 1;
        }
        None
    }

    /// The address stored under `key`, if it is fresh at the time `now`.
    pub fn lookup(&self, key: &String, now: u64) -> (r: Option<SocketAddress>)
        requires
            self.wf(),
        ensures
            r == fresh_hit(self@, key@, now),
            r matches Some(a) ==> a is V4,
    {
        match self.position(key) {
            Some(i) => {
                proof {
                    lemma_entry_at(self.entries@, i as int);
                }
                let stamp: u64 = self.entries[i].stamp;
                let age: u64 = if now >= stamp {
                    now - stamp
                } else {
                    0
                };
                if age < FRESH_NANOS {
                    Some(self.entries[i].addr)
                } else {
                    None
                }
            },
            None => None,
        }
    }

    /// Stores `addr` under `key` with the time `now`, in place of what stood
    /// under `key` before.
    fn store(&mut self, key: String, addr: SocketAddress, now: u64)
        requires
            old(self).wf(),
            addr is V4,
        ensures
            final(self).wf(),
            final(self)@ == old(self)@.insert(key@, (addr, now)),
    {
        let found = self.position(&key);
        let entry = CacheEntry { key, addr, stamp: now };
        match found {
            Some(i) => {
                proof {
                    lemma_replaced(self.entries@, i as int, entry);
                }
                self.entries.set(i, entry);
            },
            None => {
                proof {
                    lemma_appended(self.entries@, entry);
                }
                self.entries.push(entry);
            },
        }
    }

    /// Resolves `key` at the time `now`, given the `candidates` that a
    /// resolution of it gave. A fresh entry answers, and nothing changes.
    /// Else the first IPv4 candidate is stored with the time and returned;
    /// where there is none, the resolution fails and nothing changes.
    pub fn reslove(
        &mut self,
        key: String,
        candidates: &[SocketAddress],
        now: u64,
    ) -> (r: Result<SocketAddress, ResolveError>)
        requires
            old(self).wf(),
        ensures
            final(self).wf(),
            r matches Ok(a) ==> a is V4,
            match fresh_hit(old(self)@, key@, now) {
                Some(a) => r == Ok::<SocketAddress, ResolveError>(a) && *final(self) == *old(self),
                None => {
                    &&& is_first_ipv4(candidates@, r.ok())
                    &&& r is Err ==> r == Err::<SocketAddress, ResolveError>(
                        ResolveError::NoAddressFound,
                    )
                    &&& final(self)@ == stored(old(self)@, key@, r.ok(), now)
                },
            },
    {
        match self.lookup(&key, now) {
            Some(a) => Ok(a),
            None => match first_ipv4(candidates) {
                Some(a) => {
                    self.store(key, a, now);
                    Ok(a)
                },
                None => Err(ResolveError::NoAddressFound),
            },
        }
    }
}

/// What was stored answers every lookup of its key for 100 seconds, and none
/// from then on: within that time the stored address comes back, whatever
/// a new resolution would give, and afterwards the lookup finds nothing.
pub proof fn law_entry_is_fresh_for_100_seconds(
    m: Map<Seq<char>, (SocketAddress, u64)>,
    key: Seq<char>,
    addr: SocketAddress,
    stored_at: u64,
    now: u64,
)
    requires
        stored_at <= now,
    ensures
        now - stored_at < FRESH_NANOS ==> fresh_hit(
            stored(m, key, Some(addr), stored_at),
            key,
            now,
        ) == Some(addr),
        now - stored_at >= FRESH_NANOS ==> fresh_hit(
            stored(m, key, Some(addr), stored_at),
            key,
            now,
        ) is None,
        forall|other: Seq<char>|
            other != key ==> fresh_hit(stored(m, key, Some(addr), stored_at), other, now)
                == fresh_hit(m, other, now),
{
}

} // verus!

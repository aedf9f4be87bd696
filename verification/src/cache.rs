//! The time-bounded credential cache: a mapping from an opaque client app
//! key to the resolved upstream key, with a per-entry expiry instant.
//!
//! An entry is never returned at or after its expiry instant: expiry is
//! enforced at read time, so an elapsed entry behaves as absent. Entries
//! are replaced, never merged, on re-insertion. Time enters every
//! operation as an explicit `now` argument (seconds since the Unix epoch),
//! so the cache itself holds no clock and a fresh cache can stand in any
//! caller.

use vstd::prelude::*;
use crate::text::str_eq;

verus! {

/// One cached credential mapping.
pub struct CacheEntry {
    /// The opaque client credential the entry is keyed by.
    pub app_key: String,
    /// The resolved upstream key.
    pub upstream_key: String,
    /// The instant (epoch seconds) from which the entry is stale.
    pub expiry: u64,
}

/// The cache itself: a list of entries with pairwise distinct keys.
pub struct CredentialCache {
    entries: Vec<CacheEntry>,
}

impl CredentialCache {
    /// Well-formed: no two entries share a key, so a key names at most one
    /// entry.
    pub closed spec fn wf(&self) -> bool {
        forall|i: int, j: int|
            0 <= i < j < self.entries@.len() ==> self.entries@[i].app_key@
                != self.entries@[j].app_key@
    }

    /// The stored pair (upstream key, expiry) for a client key, with no
    /// regard to the clock.
    pub closed spec fn spec_lookup(&self, key: Seq<char>) -> Option<(Seq<char>, u64)> {
        if exists|i: int| 0 <= i < self.entries@.len() && self.entries@[i].app_key@ == key {
            let i = choose|i: int|
                0 <= i < self.entries@.len() && self.entries@[i].app_key@ == key;
            Some((self.entries@[i].upstream_key@, self.entries@[i].expiry))
        } else {
            None
        }
    }

    /// What a read at instant `now` returns: the stored value only while
    /// `now` lies strictly before the entry's expiry.
    pub open spec fn spec_get(&self, key: Seq<char>, now: u64) -> Option<Seq<char>> {
        match self.spec_lookup(key) {
            Some((v, e)) => if now < e {
                Some(v)
            } else {
                None
            },
            None => None,
        }
    }

    /// An empty cache, holding no key at all.
    pub fn new() -> (c: Self)
        ensures
            c.wf(),
            forall|k: Seq<char>| c.spec_lookup(k) is None,
    {
        CredentialCache { entries: Vec::new() }
    }

    /// Read-time lookup: the cached upstream key, unless the entry has
    /// reached its expiry instant, in which case it behaves as absent.
    pub fn get(&self, key: &str, now: u64) -> (r: Option<String>)
        requires
            self.wf(),
        ensures
            match r {
                Some(v) => self.spec_get(key@, now) == Some(v@),
                None => self.spec_get(key@, now) is None,
            },
    {
        let n = self.entries.len();
        let mut i: usize = 0;
        while i < n
            invariant
                self.wf(),
                n == self.entries@.len(),
                i <= n,
                forall|j: int| 0 <= j < i ==> self.entries@[j].app_key@ != key@,
            decreases n - i,
        {
            if str_eq(self.entries[i].app_key.as_str(), key) {
                proof {
                    lemma_lookup_at_index(self, i as int);
                }
                if now < self.entries[i].expiry {
                    return Some(self.entries[i].upstream_key.clone());
                } else {
                    return None;
                }
            }
            i += 1;
        }
        None
    }

    /// Store or replace the entry for `key` with expiry `now + ttl`. Other
    /// keys keep whatever mapping they had.
    pub fn insert(&mut self, key: String, value: String, ttl: u64, now: u64)
        requires
            old(self).wf(),
            now + ttl <= u64::MAX,
        ensures
            final(self).wf(),
            final(self).spec_lookup(key@) == Some((value@, (now + ttl) as u64)),
            forall|k: Seq<char>|
                k != key@ ==> final(self).spec_lookup(k) == old(self).spec_lookup(k),
    {
        let ghost gkey = key@;
        let ghost gvalue = value@;
        let expiry = now + ttl;
        let n = self.entries.len();
        let mut i: usize = 0;
        while i < n
            invariant
                self.wf(),
                self == old(self),
                gkey == key@,
                gvalue == value@,
                expiry == now + ttl,
                n == self.entries@.len(),
                i <= n,
                forall|j: int| 0 <= j < i ==> self.entries@[j].app_key@ != gkey,
            decreases n - i,
        {
            if str_eq(self.entries[i].app_key.as_str(), key.as_str()) {
                let entry = CacheEntry { app_key: key, upstream_key: value, expiry };
                let ghost old_entries = self.entries@;
                self.entries.set(i, entry);
                proof {
                    let ln = self.entries@.len() as int;
                    assert(forall|j: int| 0 <= j < ln && j != i ==> self.entries@[j] == old_entries[j]);
                    assert(self.entries@[i as int].app_key@ == gkey);
                    assert(forall|j: int|
                        0 <= j < ln ==> self.entries@[j].app_key@ == old_entries[j].app_key@);
                    lemma_lookup_at_index(self, i as int);
                    assert forall|k: Seq<char>| k != gkey implies self.spec_lookup(k) == old(
                        self,
                    ).spec_lookup(k) by {
                        lemma_lookup_other_key(self, old(self), k);
                    }
                }
                return ;
            }
            i += 1;
        }
        let entry = CacheEntry { app_key: key, upstream_key: value, expiry };
        let ghost old_entries = self.entries@;
        self.entries.push(entry);
        proof {
            let ln = self.entries@.len() as int;
            assert(forall|j: int| 0 <= j < ln - 1 ==> self.entries@[j] == old_entries[j]);
            assert(self.entries@[ln - 1].app_key@ == gkey);
            assert(self.wf());
            lemma_lookup_at_index(self, ln - 1);
            assert forall|k: Seq<char>| k != gkey implies self.spec_lookup(k) == old(
                self,
            ).spec_lookup(k) by {
                lemma_lookup_other_key(self, old(self), k);
            }
        }
    }
}

/// The lookup of the key stored at a given index yields that index's
/// entry: with pairwise distinct keys the witness is unique.
proof fn lemma_lookup_at_index(c: &CredentialCache, i: int)
    requires
        c.wf(),
        0 <= i < c.entries@.len(),
    ensures
        c.spec_lookup(c.entries@[i].app_key@) == Some(
            (c.entries@[i].upstream_key@, c.entries@[i].expiry),
        ),
{
    let key = c.entries@[i].app_key@;
    assert(exists|j: int| 0 <= j < c.entries@.len() && c.entries@[j].app_key@ == key);
    let w = choose|j: int| 0 <= j < c.entries@.len() && c.entries@[j].app_key@ == key;
    if w < i {
        assert(c.entries@[w].app_key@ != c.entries@[i].app_key@);
    } else if i < w {
        assert(c.entries@[i].app_key@ != c.entries@[w].app_key@);
    }
}

/// Two well-formed caches whose entry lists agree on every index that
/// carries the key `k` (here: agree everywhere that matters) look the same
/// up for `k`. Stated for the shapes `insert` produces: equal lists except
/// at one index whose key differs from `k` on both sides, or one appended
/// entry whose key differs from `k`.
proof fn lemma_lookup_other_key(a: &CredentialCache, b: &CredentialCache, k: Seq<char>)
    requires
        a.wf(),
        b.wf(),
        b.entries@.len() <= a.entries@.len(),
        forall|j: int|
            0 <= j < a.entries@.len() && a.entries@[j].app_key@ == k ==> j < b.entries@.len()
                && a.entries@[j] == b.entries@[j],
        forall|j: int|
            0 <= j < b.entries@.len() && b.entries@[j].app_key@ == k ==> a.entries@[j]
                == b.entries@[j],
    ensures
        a.spec_lookup(k) == b.spec_lookup(k),
{
    if exists|j: int| 0 <= j < a.entries@.len() && a.entries@[j].app_key@ == k {
        let w = choose|j: int| 0 <= j < a.entries@.len() && a.entries@[j].app_key@ == k;
        assert(b.entries@[w].app_key@ == k);
        lemma_lookup_at_index(a, w);
        lemma_lookup_at_index(b, w);
    } else if exists|j: int| 0 <= j < b.entries@.len() && b.entries@[j].app_key@ == k {
        let w = choose|j: int| 0 <= j < b.entries@.len() && b.entries@[j].app_key@ == k;
        assert(a.entries@[w].app_key@ == k);
        assert(false);
    }
}

/// Law: once a token's resolved key is cached with expiry instant `exp`,
/// a read at any instant strictly before `exp` is served from the cache —
/// so a second request inside the TTL window triggers no resolver fetch.
pub proof fn lemma_no_refetch_within_ttl(
    c: &CredentialCache,
    token: Seq<char>,
    key: Seq<char>,
    exp: u64,
    later: u64,
)
    requires
        c.wf(),
        c.spec_lookup(token) == Some((key, exp)),
        later < exp,
    ensures
        c.spec_get(token, later) == Some(key),
{
}

/// Law: an entry is never returned at or after its expiry instant; a read
/// then behaves as if the key were absent, and the next request resolves
/// the token afresh.
pub proof fn lemma_expired_entry_absent(c: &CredentialCache, token: Seq<char>, later: u64)
    requires
        c.wf(),
        match c.spec_lookup(token) {
            Some((v, e)) => later >= e,
            None => true,
        },
    ensures
        c.spec_get(token, later) is None,
{
}

} // verus!

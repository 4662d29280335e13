//! The process-wide metadata cache: lookup strings (a raw query, and
//! separately a resolved canonical webpage URL) mapped to resolved metadata.
//! Entries never expire on their own; instead every hit is guarded by a
//! lightweight liveness probe of the entry's stream URL, issued by the
//! embedding program, and a cached value is handed out only when that probe
//! succeeded — otherwise the lookup counts as a miss and a fresh resolve
//! overwrites the entry.

use vstd::prelude::*;
use crate::assoc::{
    assoc_map, distinct_keys, lemma_assoc_map_dom, lemma_assoc_map_index, lemma_assoc_map_push,
    lemma_assoc_map_remove, lemma_distinct_keys_push,
};
use crate::metadata::Metadata;

verus! {

/// The cache's entries as contracts read them: keyed by the string's view.
pub open spec fn str_keyed(s: Seq<(String, Metadata)>) -> Seq<(Seq<char>, Metadata)> {
    s.map_values(|p: (String, Metadata)| (p.0@, p.1))
}

/// The stream URL a cached entry is probed at; an entry without one is
/// probed at the empty string, which no probe answers successfully.
pub open spec fn spec_probe_url(m: Metadata) -> Seq<char> {
    if m.url is Some {
        m.url->0@
    } else {
        Seq::empty()
    }
}

/// The hit rule: a cached value is returned only when one is cached and its
/// liveness probe succeeded.
pub open spec fn spec_hit(c: Map<Seq<char>, Metadata>, q: Seq<char>, probe_ok: bool) -> Option<
    Metadata,
> {
    if probe_ok && c.contains_key(q) {
        Some(c[q])
    } else {
        None
    }
}

/// The store rule: a fresh resolve is recorded under the query itself and,
/// when the resolve carried a canonical webpage URL, under that URL too;
/// both keys map to the one metadata value.
pub open spec fn spec_store(c: Map<Seq<char>, Metadata>, q: Seq<char>, m: Metadata) -> Map<
    Seq<char>,
    Metadata,
> {
    let c1 = c.insert(q, m);
    if m.webpage_url is Some {
        c1.insert(m.webpage_url->0@, m)
    } else {
        c1
    }
}

/// The mapping from lookup key to resolved track metadata.
pub struct MetadataCache {
    entries: Vec<(String, Metadata)>,
}

impl View for MetadataCache {
    type V = Map<Seq<char>, Metadata>;

    closed spec fn view(&self) -> Map<Seq<char>, Metadata> {
        assoc_map(str_keyed(self.entries@))
    }
}

impl MetadataCache {
    /// Lookup keys are pairwise distinct.
    pub closed spec fn wf(&self) -> bool {
        distinct_keys(str_keyed(self.entries@))
    }

    /// An empty cache.
    pub fn new() -> (r: MetadataCache)
        ensures
            r@ =~= Map::<Seq<char>, Metadata>::empty(),
            r.wf(),
    {
        let r = MetadataCache { entries: Vec::new() };
        proof {
            assert(str_keyed(r.entries@) =~= Seq::<(Seq<char>, Metadata)>::empty());
        }
        r
    }

    /// Where the key's entry sits in the backing sequence.
    fn find_index(&self, key: &String) -> (r: Option<usize>)
        ensures
            match r {
                Some(i) => i < self.entries@.len() && self.entries@[i as int].0@ == key@
                    && self@.contains_key(key@),
                None => !self@.contains_key(key@),
            },
    {
        let mut i: usize = 0;
        while i < self.entries.len()
            invariant
                i <= self.entries@.len(),
                forall|j: int| 0 <= j < i ==> self.entries@[j].0@ != key@,
            decreases self.entries@.len() - i,
        {
            if self.entries[i].0.eq(key) {
                proof {
                    assert(str_keyed(self.entries@)[i as int].0 == key@);
                    lemma_assoc_map_dom(str_keyed(self.entries@), key@);
                }
                return Some(i);
            }
            i = i + 1;
        }
        proof {
            lemma_assoc_map_dom(str_keyed(self.entries@), key@);
            assert(forall|j: int|
                0 <= j < str_keyed(self.entries@).len() ==> str_keyed(self.entries@)[j].0
                    != key@);
        }
        None
    }

    /// The cached metadata under a key, when there is any.
    pub fn lookup(&self, key: &String) -> (r: Option<&Metadata>)
        requires
            self.wf(),
        ensures
            match r {
                Some(m) => self@.contains_key(key@) && *m == self@[key@],
                None => !self@.contains_key(key@),
            },
    {
        match self.find_index(key) {
            Some(i) => {
                proof {
                    lemma_assoc_map_index(str_keyed(self.entries@), i as int);
                }
                Some(&self.entries[i].1)
            },
            None => None,
        }
    }

    /// The target of the liveness probe guarding a hit under this key: the
    /// cached entry's stream URL, or the empty string when the entry lacks
    /// one (such a probe fails and the entry is re-resolved). Nothing is
    /// probed when nothing is cached.
    pub fn probe_target(&self, key: &String) -> (r: Option<String>)
        requires
            self.wf(),
        ensures
            r is Some <==> self@.contains_key(key@),
            r matches Some(u) ==> u@ == spec_probe_url(self@[key@]),
    {
        match self.lookup(key) {
            None => None,
            Some(m) => match &m.url {
                Some(u) => Some(u.clone()),
                None => Some(String::new()),
            },
        }
    }

    /// The hit decision once the probe answered: the cached value is
    /// returned only when its probe succeeded, and otherwise the lookup is
    /// treated as a miss.
    pub fn hit(&self, key: &String, probe_ok: bool) -> (r: Option<Metadata>)
        requires
            self.wf(),
        ensures
            r == spec_hit(self@, key@, probe_ok),
    {
        if !probe_ok {
            return None;
        }
        match self.lookup(key) {
            None => None,
            Some(m) => Some(m.clone()),
        }
    }

    /// Replace or create the entry under one key.
    fn insert_one(&mut self, key: &String, m: Metadata)
        requires
            old(self).wf(),
        ensures
            final(self).wf(),
            final(self)@ =~= old(self)@.insert(key@, m),
    {
        let ghost sk0 = str_keyed(self.entries@);
        match self.find_index(key) {
            Some(i) => {
                proof {
                    lemma_assoc_map_index(sk0, i as int);
                    lemma_assoc_map_remove(sk0, i as int);
                }
                let _ = self.entries.remove(i);
                proof {
                    assert(str_keyed(self.entries@) =~= sk0.remove(i as int));
                    assert(forall|j: int|
                        0 <= j < sk0.remove(i as int).len() ==> (#[trigger] sk0.remove(
                            i as int,
                        )[j]).0 != key@) by {
                        assert(forall|j: int|
                            0 <= j < sk0.remove(i as int).len() ==> sk0.remove(i as int)[j] == (
                            if j < i {
                                sk0[j]
                            } else {
                                sk0[j + 1]
                            }));
                    }
                    lemma_assoc_map_push(sk0.remove(i as int), key@, m);
                    lemma_distinct_keys_push(sk0.remove(i as int), key@, m);
                }
                let ghost mid = self.entries@;
                self.entries.push((key.clone(), m));
                proof {
                    assert(str_keyed(self.entries@) =~= str_keyed(mid).push((key@, m)));
                    assert(self@ =~= old(self)@.insert(key@, m));
                }
            },
            None => {
                proof {
                    lemma_assoc_map_dom(sk0, key@);
                    assert(forall|j: int|
                        0 <= j < sk0.len() ==> (#[trigger] sk0[j]).0 != key@);
                    lemma_assoc_map_push(sk0, key@, m);
                    lemma_distinct_keys_push(sk0, key@, m);
                }
                self.entries.push((key.clone(), m));
                proof {
                    assert(str_keyed(self.entries@) =~= sk0.push((key@, m)));
                }
            },
        }
    }

    /// Record a fresh resolve: the metadata is stored under the query it was
    /// resolved for and, when it names a canonical webpage URL, under that
    /// URL as well, overwriting whatever either key held.
    pub fn store(&mut self, query: &String, m: &Metadata)
        requires
            old(self).wf(),
        ensures
            final(self).wf(),
            final(self)@ =~= spec_store(old(self)@, query@, *m),
    {
        self.insert_one(query, m.clone());
        let webpage = match &m.webpage_url {
            Some(w) => Some(w.clone()),
            None => None,
        };
        if let Some(w) = webpage {
            self.insert_one(&w, m.clone());
        }
    }
}

/// Cache round trip: once a resolve of `q` is recorded, an immediately
/// following resolve of `q` whose liveness probe succeeds is answered from
/// the cache with the identical metadata value — the resolver is not invoked
/// a second time.
pub proof fn lemma_cache_round_trip(c: Map<Seq<char>, Metadata>, q: Seq<char>, m: Metadata)
    ensures
        spec_hit(spec_store(c, q, m), q, true) == Some(m),
{
}

/// Cache invalidation: a failed probe makes the lookup a miss whatever is
/// cached, and recording the fresh resolve that must follow overwrites the
/// entry under that key.
pub proof fn lemma_cache_invalidation(c: Map<Seq<char>, Metadata>, q: Seq<char>, m2: Metadata)
    ensures
        spec_hit(c, q, false) is None,
        spec_store(c, q, m2).contains_key(q),
        spec_store(c, q, m2)[q] == m2,
{
}

} // verus!

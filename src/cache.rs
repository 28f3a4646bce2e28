//! Index of downloaded template archives, keyed by template id and guarded
//! by a version string.
//!
//! The index is what `metadata.json` holds; copying archives into the cache
//! directory and reading or writing that file is left to the caller.
use vstd::prelude::*;
use crate::text::{join_path, joined, same_text};
use crate::keyed::{Keyed, entry_for, has_key, keys_unique, upsert, lemma_upsert, lookup, upsert_into};

verus! {

/// One cached archive.
#[derive(Debug)]
pub struct CachedTemplate {
    pub id: String,
    pub version: String,
    /// Unix seconds at which the archive was stored.
    pub cached_at: i64,
    pub file_path: String,
    pub size_bytes: u64,
}

impl Clone for CachedTemplate {
    fn clone(&self) -> (r: Self)
        ensures
            r == *self,
    {
        CachedTemplate {
            id: self.id.clone(),
            version: self.version.clone(),
            cached_at: self.cached_at,
            file_path: self.file_path.clone(),
            size_bytes: self.size_bytes,
        }
    }
}

impl Keyed for CachedTemplate {
    open spec fn key(&self) -> Seq<char> {
        self.id@
    }

    fn key_text(&self) -> (r: &String) {
        &self.id
    }
}

/// The persisted form of the index: one record per template id.
#[derive(Debug)]
pub struct CacheMetadata {
    pub templates: Vec<CachedTemplate>,
}

/// Path of the archive cached for `id`, provided its version is `version`.
pub open spec fn cache_hit(s: Seq<CachedTemplate>, id: Seq<char>, version: Seq<char>) -> Option<Seq<char>> {
    match entry_for(s, id) {
        Some(e) => if e.version@ == version {
            Some(e.file_path@)
        } else {
            None
        },
        None => None,
    }
}

/// The records of `items` stored one after another into `s`.
pub open spec fn upsert_all(s: Seq<CachedTemplate>, items: Seq<CachedTemplate>) -> Seq<CachedTemplate>
    decreases items.len(),
{
    if items.len() == 0 {
        s
    } else {
        upsert(upsert_all(s, items.drop_last()), items.last())
    }
}

pub struct TemplateCache {
    cache_dir: String,
    metadata: CacheMetadata,
}

impl TemplateCache {
    /// The records, in the order of first storage.
    pub closed spec fn entries(&self) -> Seq<CachedTemplate> {
        self.metadata.templates@
    }

    pub closed spec fn dir(&self) -> Seq<char> {
        self.cache_dir@
    }

    /// One record per template id.
    pub open spec fn wf(&self) -> bool {
        keys_unique(self.entries())
    }

    /// A cache over `cache_dir` holding what `stored` records, or nothing
    /// when no readable index was found. Later records of one id win.
    pub fn new(cache_dir: String, stored: Option<CacheMetadata>) -> (r: Self)
        ensures
            r.wf(),
            r.dir() == cache_dir@,
            r.entries() == match stored {
                Some(m) => upsert_all(Seq::empty(), m.templates@),
                None => Seq::<CachedTemplate>::empty(),
            },
    {
        let mut cache = TemplateCache { cache_dir, metadata: CacheMetadata { templates: Vec::new() } };
        match stored {
            Some(m) => {
                let mut items = m.templates;
                let ghost all = items@;
                let ghost mut k: int = 0;
                while items.len() > 0
                    invariant
                        0 <= k <= all.len(),
                        items@ == all.subrange(k, all.len() as int),
                        cache.wf(),
                        cache.dir() == cache_dir@,
                        cache.entries() == upsert_all(Seq::empty(), all.subrange(0, k)),
                    decreases items@.len(),
                {
                    let e = items.remove(0);
                    proof {
                        assert(e == all[k]);
                        lemma_upsert(cache.entries(), e, e.id@);
                        assert(all.subrange(0, k + 1).drop_last() =~= all.subrange(0, k));
                        assert(items@ =~= all.subrange(k + 1, all.len() as int));
                        k = k + 1;
                    }
                    upsert_into(&mut cache.metadata.templates, e);
                }
                proof {
                    assert(all.subrange(0, k) =~= all);
                }
            },
            None => {},
        }
        cache
    }

    pub fn cache_dir(&self) -> (r: &String)
        ensures
            r@ == self.dir(),
    {
        &self.cache_dir
    }

    /// Where an archive `source` named `file_name` is kept in the cache, and
    /// whether it must be copied there (it is not already at that path).
    pub fn placement(&self, source: &str, file_name: &str) -> (r: (String, bool))
        ensures
            r.0@ == joined(self.dir(), file_name@),
            r.1 == (source@ != r.0@),
    {
        let cached = join_path(self.cache_dir.as_str(), file_name);
        let copy = !same_text(source, cached.as_str());
        (cached, copy)
    }

    /// Path of the archive cached for `template_id`, only if it was stored
    /// with exactly `version`.
    pub fn get(&self, template_id: &str, version: &str) -> (r: Option<String>)
        ensures
            match r {
                Some(p) => cache_hit(self.entries(), template_id@, version@) == Some(p@),
                None => cache_hit(self.entries(), template_id@, version@) == None::<Seq<char>>,
            },
    {
        let id = template_id.to_owned();
        match lookup(&self.metadata.templates, &id) {
            Some(e) => {
                let v = version.to_owned();
                if e.version.eq(&v) {
                    Some(e.file_path.clone())
                } else {
                    None
                }
            },
            None => None,
        }
    }

    /// Records that the archive for `template_id` at `version` now lies at
    /// `file_path` (inside the cache directory), replacing any record of that
    /// id whatever its version.
    pub fn store(&mut self, template_id: String, version: String, file_path: String, cached_at: i64, size_bytes: u64)
        requires
            old(self).wf(),
        ensures
            final(self).wf(),
            final(self).dir() == old(self).dir(),
            final(self).entries() == upsert(
                old(self).entries(),
                CachedTemplate { id: template_id, version, cached_at, file_path, size_bytes },
            ),
    {
        let e = CachedTemplate { id: template_id, version, cached_at, file_path, size_bytes };
        proof {
            lemma_upsert(self.entries(), e, e.id@);
        }
        upsert_into(&mut self.metadata.templates, e);
    }

    /// Forgets every record.
    pub fn clear(&mut self)
        ensures
            final(self).wf(),
            final(self).dir() == old(self).dir(),
            final(self).entries() == Seq::<CachedTemplate>::empty(),
    {
        self.metadata.templates = Vec::new();
    }

    /// All records.
    pub fn list_cached(&self) -> (r: Vec<CachedTemplate>)
        ensures
            r@ == self.entries(),
    {
        let r = self.metadata.templates.clone();
        proof {
            assert(r@ =~= self.entries());
        }
        r
    }

    /// The index as it is persisted.
    pub fn metadata(&self) -> (r: CacheMetadata)
        ensures
            r.templates@ == self.entries(),
    {
        CacheMetadata { templates: self.list_cached() }
    }

    /// Total size of the cached archives, or `None` if it exceeds `u64`.
    pub fn total_size_bytes(&self) -> (r: Option<u64>)
        ensures
            match r {
                Some(n) => n as int == size_sum(self.entries()),
                None => size_sum(self.entries()) > u64::MAX,
            },
    {
        let v = &self.metadata.templates;
        let mut total: u64 = 0;
        let mut i: usize = 0;
        while i < v.len()
            invariant
                i <= v@.len(),
                v@ == self.entries(),
                total as int == size_sum(v@.subrange(0, i as int)),
            decreases v@.len() - i,
        {
            proof {
                assert(v@.subrange(0, i + 1).drop_last() =~= v@.subrange(0, i as int));
                lemma_size_sum_prefix_monotone(v@, i + 1);
            }
            let s = v[i].size_bytes;
            if total > u64::MAX - s {
                return None;
            }
            total = total + s;
            i = i + 1;
        }
        proof {
            assert(v@.subrange(0, i as int) =~= v@);
        }
        Some(total)
    }
}

/// Sum of the sizes of the records of `s`.
pub open spec fn size_sum(s: Seq<CachedTemplate>) -> int
    decreases s.len(),
{
    if s.len() == 0 {
        0
    } else {
        size_sum(s.drop_last()) + s.last().size_bytes
    }
}

proof fn lemma_size_sum_prefix_monotone(s: Seq<CachedTemplate>, n: int)
    requires
        0 <= n <= s.len(),
    ensures
        size_sum(s.subrange(0, n)) <= size_sum(s),
    decreases s.len() - n,
{
    if n < s.len() {
        lemma_size_sum_prefix_monotone(s, n + 1);
        assert(s.subrange(0, n + 1).drop_last() =~= s.subrange(0, n));
    } else {
        assert(s.subrange(0, n) =~= s);
    }
}

/// Storing one id and version twice: a lookup finds the second file, and
/// the second store adds no record.
pub proof fn lemma_store_last_write_wins(s: Seq<CachedTemplate>, first: CachedTemplate, second: CachedTemplate)
    requires
        keys_unique(s),
        first.id@ == second.id@,
        first.version@ == second.version@,
    ensures
        cache_hit(upsert(upsert(s, first), second), second.id@, second.version@) == Some(second.file_path@),
        upsert(upsert(s, first), second).len() == upsert(s, first).len(),
{
    lemma_upsert(s, first, second.id@);
    lemma_upsert(upsert(s, first), second, second.id@);
}

/// Storing a new version of an id hides the old one: only the new version
/// is found.
pub proof fn lemma_store_version_isolation(s: Seq<CachedTemplate>, first: CachedTemplate, second: CachedTemplate)
    requires
        keys_unique(s),
        first.id@ == second.id@,
        first.version@ != second.version@,
    ensures
        cache_hit(upsert(upsert(s, first), second), first.id@, first.version@) == None::<Seq<char>>,
        cache_hit(upsert(upsert(s, first), second), second.id@, second.version@) == Some(second.file_path@),
{
    lemma_upsert(s, first, second.id@);
    lemma_upsert(upsert(s, first), second, second.id@);
}

/// A cleared index finds nothing.
pub proof fn lemma_cleared_finds_nothing(id: Seq<char>, version: Seq<char>)
    ensures
        cache_hit(Seq::<CachedTemplate>::empty(), id, version) == None::<Seq<char>>,
{
}

/// Rebuilding an index from its own persisted records gives back the same
/// records, so every lookup finds what it found before.
pub proof fn lemma_reload_same_entries(s: Seq<CachedTemplate>)
    requires
        keys_unique(s),
    ensures
        upsert_all(Seq::empty(), s) == s,
    decreases s.len(),
{
    if s.len() > 0 {
        let p = s.drop_last();
        assert(keys_unique(p)) by {
            assert forall|i: int, j: int| 0 <= i < j < p.len() implies #[trigger] p[i].key() != #[trigger] p[j].key() by {
                assert(p[i] == s[i] && p[j] == s[j]);
            }
        }
        lemma_reload_same_entries(p);
        crate::keyed::lemma_index_of(p, s.last().key());
        if has_key(p, s.last().key()) {
            let j = choose|j: int| 0 <= j < p.len() && #[trigger] p[j].key() == s.last().key();
            assert(s[j].key() == s[s.len() - 1].key());
        }
        assert(p.push(s.last()) =~= s);
    }
}

} // verus!

//! Path resolution: turning an entry's parent-pointer chain into a full
//! path, with a bounded least-recently-used cache of directory paths.
//!
//! Resolution is a dialogue: `resolve_path` answers from the cache when
//! it can, and otherwise names the file id whose path the caller must
//! look up on the volume; `resolve_path_with_lookup` accepts that
//! answer. Only directories are cached, because only directories serve
//! as parents of other entries, and a cached directory whose stored name
//! no longer matches the entry being resolved is stale from a rename: it
//! is evicted and resolved afresh.

use vstd::prelude::*;
use vstd::string::*;
use crate::bytes::{le_u16_at, le_u32_at, read_le_u16, read_le_u32};
use crate::journal::UsnEntry;
use crate::mft::MftEntry;
use crate::text::utf16_lossy;

verus! {

/// Capacity of the bounded resolution cache.
pub const LRU_CACHE_CAPACITY: usize = 4096;

/// The bounded least-recently-used cache of resolved directory paths,
/// keyed by file id, holding each directory's path and the name it was
/// resolved under.
pub type PathCache = lru::LruCache<u64, (String, String), std::collections::hash_map::RandomState>;

#[verifier::external_type_specification]
#[verifier::external_body]
#[verifier::reject_recursive_types(K)]
#[verifier::reject_recursive_types(V)]
#[verifier::reject_recursive_types(S)]
pub struct ExLruCache<K, V, S>(lru::LruCache<K, V, S>);

/// What the cache holds: for each cached file id, the resolved path and
/// the name it was resolved under.
pub uninterp spec fn cache_contents(c: PathCache) -> Map<u64, (Seq<char>, Seq<char>)>;

/// The contents of a cache that holds nothing.
pub open spec fn empty_cache_map() -> Map<u64, (Seq<char>, Seq<char>)> {
    Map::empty()
}

/// The bound the cache was created with.
pub uninterp spec fn cache_bound(c: PathCache) -> nat;

/// Relies on `lru::LruCache::with_hasher`: creates an empty cache that
/// holds at most `cap` entries.
#[verifier::external_body]
fn lru_new(cap: usize) -> (r: PathCache)
    requires
        cap > 0,
    ensures
        cache_contents(r) == empty_cache_map(),
        cache_bound(r) == cap,
{
    lru::LruCache::with_hasher(
        std::num::NonZeroUsize::new(cap).unwrap(),
        std::collections::hash_map::RandomState::new(),
    )
}

/// Relies on `lru::LruCache::get`: returns the value cached under `k`,
/// marking it most recently used; the contents are unchanged.
#[verifier::external_body]
fn lru_get(c: &mut PathCache, k: u64) -> (r: Option<(String, String)>)
    ensures
        cache_contents(*final(c)) == cache_contents(*old(c)),
        cache_bound(*final(c)) == cache_bound(*old(c)),
        r matches Some(v) ==> cache_contents(*old(c)).contains_key(k) && cache_contents(
            *old(c),
        )[k] == (v.0@, v.1@),
        r is None ==> !cache_contents(*old(c)).contains_key(k),
{
    c.get(&k).cloned()
}

/// Relies on `lru::LruCache::peek`: returns the value cached under `k`
/// without touching its recency.
#[verifier::external_body]
fn lru_peek(c: &PathCache, k: u64) -> (r: Option<(String, String)>)
    ensures
        r matches Some(v) ==> cache_contents(*c).contains_key(k) && cache_contents(*c)[k] == (
            v.0@,
            v.1@,
        ),
        r is None ==> !cache_contents(*c).contains_key(k),
{
    c.peek(&k).cloned()
}

/// Relies on `lru::LruCache::put`: caches `v` under `k` and returns the
/// value previously under `k`. When a new key is added to a full cache,
/// the least recently used entry is evicted to make room.
#[verifier::external_body]
fn lru_put(c: &mut PathCache, k: u64, v: (String, String)) -> (r: Option<(String, String)>)
    ensures
        cache_bound(*final(c)) == cache_bound(*old(c)),
        cache_contents(*final(c)).contains_key(k) && cache_contents(*final(c))[k] == (v.0@, v.1@),
        r matches Some(o) ==> cache_contents(*old(c)).contains_key(k) && cache_contents(
            *old(c),
        )[k] == (o.0@, o.1@),
        r is None ==> !cache_contents(*old(c)).contains_key(k),
        cache_contents(*old(c)).contains_key(k) ==> cache_contents(*final(c)) == cache_contents(
            *old(c),
        ).insert(k, (v.0@, v.1@)),
        (!cache_contents(*old(c)).contains_key(k) && cache_contents(*old(c)).len() < cache_bound(
            *old(c),
        )) ==> cache_contents(*final(c)) == cache_contents(*old(c)).insert(k, (v.0@, v.1@)),
        (!cache_contents(*old(c)).contains_key(k) && cache_contents(*old(c)).len() == cache_bound(
            *old(c),
        )) ==> exists|ev: u64|
            cache_contents(*old(c)).contains_key(ev) && ev != k && cache_contents(*final(c))
                == cache_contents(*old(c)).remove(ev).insert(k, (v.0@, v.1@)),
{
    c.put(k, v)
}

/// Relies on `lru::LruCache::pop`: removes and returns the value cached
/// under `k`.
#[verifier::external_body]
fn lru_pop(c: &mut PathCache, k: u64) -> (r: Option<(String, String)>)
    ensures
        cache_bound(*final(c)) == cache_bound(*old(c)),
        cache_contents(*final(c)) == cache_contents(*old(c)).remove(k),
        r matches Some(o) ==> cache_contents(*old(c)).contains_key(k) && cache_contents(
            *old(c),
        )[k] == (o.0@, o.1@),
        r is None ==> !cache_contents(*old(c)).contains_key(k),
{
    c.pop(&k)
}

/// Relies on `lru::LruCache::cap`: the bound the cache was created with.
#[verifier::external_body]
fn lru_cap(c: &PathCache) -> (r: usize)
    ensures
        r == cache_bound(*c),
{
    c.cap().get()
}

/// An entry that can be resolved to a path: it names itself, its parent,
/// and whether it is a directory.
pub trait PathResolvableEntry {
    /// The entry's file id.
    spec fn fid_spec(&self) -> u64;

    /// The parent directory's file id.
    spec fn parent_fid_spec(&self) -> u64;

    /// The entry's name.
    spec fn file_name_spec(&self) -> Seq<char>;

    /// Whether the entry is a directory.
    spec fn entry_is_dir_spec(&self) -> bool;

    fn fid(&self) -> (r: u64)
        ensures
            r == self.fid_spec(),
    ;

    fn parent_fid(&self) -> (r: u64)
        ensures
            r == self.parent_fid_spec(),
    ;

    fn file_name(&self) -> (r: &String)
        ensures
            r@ == self.file_name_spec(),
    ;

    fn is_dir(&self) -> (r: bool)
        ensures
            r == self.entry_is_dir_spec(),
    ;
}

impl PathResolvableEntry for MftEntry {
    open spec fn fid_spec(&self) -> u64 {
        self.fid
    }

    open spec fn parent_fid_spec(&self) -> u64 {
        self.parent_fid
    }

    open spec fn file_name_spec(&self) -> Seq<char> {
        self.file_name@
    }

    open spec fn entry_is_dir_spec(&self) -> bool {
        self.is_dir_spec()
    }

    fn fid(&self) -> u64 {
        self.fid
    }

    fn parent_fid(&self) -> u64 {
        self.parent_fid
    }

    fn file_name(&self) -> &String {
        &self.file_name
    }

    fn is_dir(&self) -> bool {
        MftEntry::is_dir(self)
    }
}

impl PathResolvableEntry for UsnEntry {
    open spec fn fid_spec(&self) -> u64 {
        self.fid
    }

    open spec fn parent_fid_spec(&self) -> u64 {
        self.parent_fid
    }

    open spec fn file_name_spec(&self) -> Seq<char> {
        self.file_name@
    }

    open spec fn entry_is_dir_spec(&self) -> bool {
        self.is_dir_spec()
    }

    fn fid(&self) -> u64 {
        self.fid
    }

    fn parent_fid(&self) -> u64 {
        self.parent_fid
    }

    fn file_name(&self) -> &String {
        &self.file_name
    }

    fn is_dir(&self) -> bool {
        UsnEntry::is_dir(self)
    }
}

/// A directory path joined with a child name: a separator is added
/// unless the path already ends with one.
pub open spec fn joined_path(parent: Seq<char>, name: Seq<char>) -> Seq<char> {
    if parent.len() > 0 && parent.last() == '\\' {
        parent + name
    } else {
        parent + seq!['\\'] + name
    }
}

/// The terminal component of a path: what follows the last separator,
/// the whole path when it has none, and empty when it ends with one.
pub open spec fn last_component_of(s: Seq<char>) -> Seq<char>
    decreases s.len(),
{
    if s.len() == 0 {
        s
    } else if s.last() == '\\' {
        Seq::<char>::empty()
    } else {
        last_component_of(s.drop_last()).push(s.last())
    }
}

/// Joins a directory path with a child name, adding a separator unless
/// the path already ends with one.
pub fn join_components(parent: &str, name: &str) -> (r: String)
    ensures
        r@ == joined_path(parent@, name@),
{
    let n = parent.unicode_len();
    let mut out = parent.to_owned();
    if n == 0 || parent.get_char(n - 1) != '\\' {
        out.append("\\");
        proof {
            reveal_strlit("\\");
            assert(out@ =~= parent@ + seq!['\\']);
        }
    }
    out.append(name);
    proof {
        if parent@.len() > 0 && parent@.last() == '\\' {
            assert(out@ =~= joined_path(parent@, name@));
        } else {
            assert(out@ =~= joined_path(parent@, name@));
        }
    }
    out
}

/// Returns the terminal component of a path.
pub fn last_component(s: &str) -> (r: String)
    ensures
        r@ == last_component_of(s@),
{
    let n = s.unicode_len();
    let mut cut: usize = n;
    while cut > 0 && s.get_char(cut - 1) != '\\'
        invariant
            cut <= n,
            n == s@.len(),
            forall|j: int| cut <= j < n ==> s@[j] != '\\',
        decreases cut,
    {
        cut = cut - 1;
    }
    proof {
        lemma_last_component_suffix(s@, cut as int);
    }
    s.substring_char(cut, n).to_owned()
}

/// After the last separator, the terminal component is exactly the
/// remaining suffix.
proof fn lemma_last_component_suffix(s: Seq<char>, cut: int)
    requires
        0 <= cut <= s.len(),
        forall|j: int| cut <= j < s.len() ==> s[j] != '\\',
        cut > 0 ==> s[cut - 1] == '\\',
    ensures
        last_component_of(s) == s.subrange(cut, s.len() as int),
    decreases s.len(),
{
    if s.len() == 0 {
        assert(last_component_of(s) =~= s.subrange(0, 0));
    } else if cut == s.len() {
        assert(s.last() == '\\');
        assert(last_component_of(s) =~= s.subrange(cut, s.len() as int));
    } else {
        assert(s.last() != '\\');
        lemma_last_component_suffix(s.drop_last(), cut);
        assert(last_component_of(s.drop_last()) == s.drop_last().subrange(
            cut,
            s.len() - 1,
        ));
        assert(last_component_of(s) =~= s.subrange(cut, s.len() as int));
    }
}

/// One step of path resolution.
pub enum ResolveStep {
    /// The full path of the entry.
    Resolved(String),
    /// The cache cannot answer: look up this file id's path on the
    /// volume and hand the outcome to `resolve_path_with_lookup`.
    NeedLookup(u64),
    /// The path cannot be resolved.
    Unresolved,
}

/// What one cache insertion leaves behind: the new mapping replaces an
/// existing one or fills free room exactly; adding a new key to a full
/// cache evicts exactly one other entry, chosen by recency, which this
/// map view leaves open.
pub open spec fn cache_put_post(
    m: Map<u64, (Seq<char>, Seq<char>)>,
    bound: nat,
    k: u64,
    v: (Seq<char>, Seq<char>),
    m2: Map<u64, (Seq<char>, Seq<char>)>,
) -> bool {
    if m.contains_key(k) || m.len() < bound {
        m2 == m.insert(k, v)
    } else {
        exists|ev: u64| m.contains_key(ev) && ev != k && m2 == m.remove(ev).insert(k, v)
    }
}

/// The cache after the staleness check on the entry's own id: a cached
/// path whose stored name differs from the entry's current name was made
/// under an old name, so it is evicted.
pub open spec fn after_rename_check(
    m: Map<u64, (Seq<char>, Seq<char>)>,
    fid: u64,
    name: Seq<char>,
) -> Map<u64, (Seq<char>, Seq<char>)> {
    if m.contains_key(fid) && m[fid].1 != name {
        m.remove(fid)
    } else {
        m
    }
}

/// Resolves entries to full paths, keeping a bounded cache of resolved
/// directory paths when constructed with one.
pub struct PathResolver {
    cache: Option<PathCache>,
}

impl PathResolver {
    /// The resolver keeps a cache.
    pub closed spec fn has_cache_spec(self) -> bool {
        self.cache is Some
    }

    /// What the cache holds; empty when the resolver keeps none.
    pub closed spec fn cache_map(self) -> Map<u64, (Seq<char>, Seq<char>)> {
        match self.cache {
            Some(c) => cache_contents(c),
            None => Map::empty(),
        }
    }

    /// The bound of the cache; zero when the resolver keeps none.
    pub closed spec fn cache_bound_spec(self) -> nat {
        match self.cache {
            Some(c) => cache_bound(c),
            None => 0,
        }
    }

    /// The cache never outgrows its bound.
    pub closed spec fn wf(self) -> bool {
        match self.cache {
            Some(c) => cache_contents(c).dom().finite() && cache_contents(c).len() <= cache_bound(
                c,
            ) && cache_bound(c) > 0,
            None => true,
        }
    }

    /// Creates a resolver without a cache: every resolution goes to the
    /// volume.
    pub fn new() -> (r: PathResolver)
        ensures
            !r.has_cache_spec(),
            r.wf(),
    {
        PathResolver { cache: None }
    }

    /// Creates a resolver with an empty bounded cache.
    pub fn new_with_cache() -> (r: PathResolver)
        ensures
            r.has_cache_spec(),
            r.cache_map() == empty_cache_map(),
            r.cache_bound_spec() == LRU_CACHE_CAPACITY,
            r.wf(),
    {
        let c = lru_new(LRU_CACHE_CAPACITY);
        PathResolver { cache: Some(c) }
    }

    /// The resolver keeps a cache.
    pub fn has_cache(&self) -> (r: bool)
        ensures
            r == self.has_cache_spec(),
    {
        self.cache.is_some()
    }

    /// The capacity of the cache, when the resolver keeps one.
    pub fn cache_capacity(&self) -> (r: Option<usize>)
        ensures
            self.has_cache_spec() ==> (r matches Some(n) && n == self.cache_bound_spec()),
            !self.has_cache_spec() ==> r is None,
    {
        match &self.cache {
            Some(c) => Some(lru_cap(c)),
            None => None,
        }
    }

    /// Reads the cache entry for a file id without touching its recency.
    pub fn cache_peek(&self, fid: u64) -> (r: Option<(String, String)>)
        ensures
            r matches Some(v) ==> self.cache_map().contains_key(fid) && self.cache_map()[fid] == (
                v.0@,
                v.1@,
            ),
            r is None ==> !self.cache_map().contains_key(fid),
    {
        match &self.cache {
            Some(c) => lru_peek(c, fid),
            None => None,
        }
    }

    /// Seeds the cache with a resolved path for a file id; without a
    /// cache this does nothing.
    pub fn cache_put(&mut self, fid: u64, path: String, name: String)
        requires
            old(self).wf(),
        ensures
            final(self).wf(),
            final(self).has_cache_spec() == old(self).has_cache_spec(),
            final(self).cache_bound_spec() == old(self).cache_bound_spec(),
            !old(self).has_cache_spec() ==> final(self).cache_map() == old(self).cache_map(),
            old(self).has_cache_spec() ==> cache_put_post(
                old(self).cache_map(),
                old(self).cache_bound_spec(),
                fid,
                (path@, name@),
                final(self).cache_map(),
            ),
            old(self).has_cache_spec() ==> {
                &&& final(self).cache_map().contains_key(fid)
                &&& final(self).cache_map()[fid] == (path@, name@)
            },
    {
        match &mut self.cache {
            Some(c) => {
                let ghost before = cache_contents(*c);
                let ghost v = (path@, name@);
                let _ = lru_put(c, fid, (path, name));
                proof {
                    lemma_put_keeps_bound(before, cache_contents(*c), fid, cache_bound(*c));
                    assert(cache_put_post(before, cache_bound(*c), fid, v, cache_contents(*c)));
                }
            },
            None => {},
        }
    }
}

/// Every way `put` can change a full or non-full cache keeps it within
/// its bound.
proof fn lemma_put_keeps_bound(
    before: Map<u64, (Seq<char>, Seq<char>)>,
    after: Map<u64, (Seq<char>, Seq<char>)>,
    k: u64,
    bound: nat,
)
    requires
        before.dom().finite(),
        before.len() <= bound,
        bound > 0,
        before.contains_key(k) ==> exists|v: (Seq<char>, Seq<char>)| after == before.insert(k, v),
        (!before.contains_key(k) && before.len() < bound) ==> exists|v: (Seq<char>, Seq<char>)|
            after == before.insert(k, v),
        (!before.contains_key(k) && before.len() == bound) ==> exists|
            ev: u64,
            v: (Seq<char>, Seq<char>),
        |
            before.contains_key(ev) && ev != k && after == before.remove(ev).insert(k, v),
    ensures
        after.len() <= bound,
        after.dom().finite(),
{
    broadcast use vstd::set::group_set_axioms;

    if before.contains_key(k) {
        let v = choose|v: (Seq<char>, Seq<char>)| after == before.insert(k, v);
        assert(after.dom() =~= before.dom().insert(k));
        assert(before.dom().insert(k) =~= before.dom());
    } else if before.len() < bound {
        let v = choose|v: (Seq<char>, Seq<char>)| after == before.insert(k, v);
        assert(after.dom() =~= before.dom().insert(k));
    } else {
        let (ev, v) = choose|ev: u64, v: (Seq<char>, Seq<char>)|
            before.contains_key(ev) && ev != k && after == before.remove(ev).insert(k, v);
        assert(after.dom() =~= before.dom().remove(ev).insert(k));
    }
}


/// The view of an optional looked-up path.
pub open spec fn opt_string_view(o: Option<String>) -> Option<Seq<char>> {
    match o {
        Some(s) => Some(s@),
        None => None,
    }
}

/// What resolving an entry against a cache yields and leaves cached.
///
/// A fresh cached path under the entry's own id answers directly. A
/// cached path stored under a different name is stale from a rename and
/// is evicted. Then a cached parent path answers by joining the entry's
/// name onto it, and a directory entry is cached under its own id so its
/// descendants can resolve against it; otherwise the parent's id must be
/// looked up on the volume.
pub open spec fn resolve_cached_post(
    m: Map<u64, (Seq<char>, Seq<char>)>,
    bound: nat,
    fid: u64,
    parent: u64,
    name: Seq<char>,
    is_dir: bool,
    r: ResolveStep,
    m2: Map<u64, (Seq<char>, Seq<char>)>,
) -> bool {
    let m1 = after_rename_check(m, fid, name);
    if m.contains_key(fid) && m[fid].1 == name {
        &&& (r matches ResolveStep::Resolved(p) && p@ == m[fid].0)
        &&& m2 == m
    } else if m1.contains_key(parent) {
        let path = joined_path(m1[parent].0, name);
        &&& (r matches ResolveStep::Resolved(p) && p@ == path)
        &&& !is_dir ==> m2 == m1
        &&& is_dir ==> cache_put_post(m1, bound, fid, (path, name), m2)
        &&& is_dir ==> m2.contains_key(fid) && m2[fid] == (path, name)
    } else {
        &&& (r matches ResolveStep::NeedLookup(f) && f == parent)
        &&& m2 == m1
    }
}

/// What accepting a volume lookup yields and leaves cached.
///
/// A failed lookup fails the resolution. A successful lookup of the
/// parent's path caches the parent under its own terminal name, joins
/// the entry's name onto it, and caches a directory entry under its own
/// id; each insertion is exact when there is room and evicts exactly one
/// entry when the cache is full.
pub open spec fn resolve_lookup_post(
    m: Map<u64, (Seq<char>, Seq<char>)>,
    bound: nat,
    fid: u64,
    parent: u64,
    name: Seq<char>,
    is_dir: bool,
    looked: Option<Seq<char>>,
    r: ResolveStep,
    m2: Map<u64, (Seq<char>, Seq<char>)>,
) -> bool {
    match looked {
        None => r is Unresolved && m2 == m,
        Some(p) => {
            let path = joined_path(p, name);
            &&& (r matches ResolveStep::Resolved(q) && q@ == path)
            &&& exists|mid: Map<u64, (Seq<char>, Seq<char>)>|
                {
                    &&& #[trigger] cache_put_post(m, bound, parent, (p, last_component_of(p)), mid)
                    &&& if is_dir {
                        cache_put_post(mid, bound, fid, (path, name), m2)
                    } else {
                        m2 == mid
                    }
                }
            &&& is_dir ==> m2.contains_key(fid) && m2[fid] == (path, name)
        },
    }
}

impl PathResolver {
    /// Resolves an entry, answering from the cache when it can.
    ///
    /// With a cache: a cached path under the entry's own id whose stored
    /// name matches answers directly; one stored under another name is
    /// stale from a rename and is evicted; a cached parent path answers
    /// by joining the entry's name onto it, and a directory entry is then
    /// cached so its descendants can resolve against it. Otherwise, and
    /// always without a cache, the caller must look up the named file id
    /// on the volume and hand the outcome to `resolve_path_with_lookup`.
    pub fn resolve_path<E: PathResolvableEntry>(&mut self, entry: &E) -> (r: ResolveStep)
        requires
            old(self).wf(),
        ensures
            final(self).wf(),
            final(self).has_cache_spec() == old(self).has_cache_spec(),
            final(self).cache_bound_spec() == old(self).cache_bound_spec(),
            !old(self).has_cache_spec() ==> {
                &&& (r matches ResolveStep::NeedLookup(f) && f == entry.parent_fid_spec())
                &&& final(self).cache_map() == old(self).cache_map()
            },
            old(self).has_cache_spec() ==> resolve_cached_post(
                old(self).cache_map(),
                old(self).cache_bound_spec(),
                entry.fid_spec(),
                entry.parent_fid_spec(),
                entry.file_name_spec(),
                entry.entry_is_dir_spec(),
                r,
                final(self).cache_map(),
            ),
    {
        let fid = entry.fid();
        let parent_fid = entry.parent_fid();
        match &mut self.cache {
            None => ResolveStep::NeedLookup(parent_fid),
            Some(c) => {
                match lru_get(c, fid) {
                    Some(cached) => {
                        let (cached_path, cached_name) = cached;
                        if cached_name.eq(entry.file_name()) {
                            return ResolveStep::Resolved(cached_path);
                        }
                        let _ = lru_pop(c, fid);
                    },
                    None => {},
                }
                match lru_get(c, parent_fid) {
                    Some(parent_entry) => {
                        let path = join_components(
                            parent_entry.0.as_str(),
                            entry.file_name().as_str(),
                        );
                        if entry.is_dir() {
                            let ghost before = cache_contents(*c);
                            let _ = lru_put(
                                c,
                                fid,
                                (path.clone(), entry.file_name().clone()),
                            );
                            proof {
                                lemma_put_keeps_bound(
                                    before,
                                    cache_contents(*c),
                                    fid,
                                    cache_bound(*c),
                                );
                                assert(cache_put_post(
                                    before,
                                    cache_bound(*c),
                                    fid,
                                    (path@, entry.file_name_spec()),
                                    cache_contents(*c),
                                ));
                            }
                        }
                        ResolveStep::Resolved(path)
                    },
                    None => ResolveStep::NeedLookup(parent_fid),
                }
            },
        }
    }

    /// Accepts the outcome of the volume lookup that `resolve_path`
    /// asked for.
    ///
    /// With a cache, the lookup answered the parent's id: its path is
    /// cached under the parent's own terminal name, the entry's name is
    /// joined onto it, and a directory entry is cached under its own id;
    /// a failed lookup fails the resolution. Without a cache, a failed
    /// parent lookup falls back to looking up the entry's own id, whose
    /// path, when found, is the answer itself.
    pub fn resolve_path_with_lookup<E: PathResolvableEntry>(
        &mut self,
        entry: &E,
        looked_up_fid: u64,
        lookup: Option<String>,
    ) -> (r: ResolveStep)
        requires
            old(self).wf(),
            looked_up_fid == entry.parent_fid_spec() || (!old(self).has_cache_spec()
                && looked_up_fid == entry.fid_spec()),
        ensures
            final(self).wf(),
            final(self).has_cache_spec() == old(self).has_cache_spec(),
            final(self).cache_bound_spec() == old(self).cache_bound_spec(),
            !old(self).has_cache_spec() ==> {
                &&& final(self).cache_map() == old(self).cache_map()
                &&& lookup matches Some(p) ==> {
                    &&& looked_up_fid == entry.parent_fid_spec() ==> (
                    r matches ResolveStep::Resolved(q) && q@ == joined_path(
                        p@,
                        entry.file_name_spec(),
                    ))
                    &&& looked_up_fid != entry.parent_fid_spec() ==> (
                    r matches ResolveStep::Resolved(q) && q@ == p@)
                }
                &&& lookup is None ==> {
                    &&& looked_up_fid != entry.fid_spec() ==> (
                    r matches ResolveStep::NeedLookup(f) && f == entry.fid_spec())
                    &&& looked_up_fid == entry.fid_spec() ==> r is Unresolved
                }
            },
            old(self).has_cache_spec() ==> resolve_lookup_post(
                old(self).cache_map(),
                old(self).cache_bound_spec(),
                entry.fid_spec(),
                entry.parent_fid_spec(),
                entry.file_name_spec(),
                entry.entry_is_dir_spec(),
                opt_string_view(lookup),
                r,
                final(self).cache_map(),
            ),
    {
        match &mut self.cache {
            Some(c) => {
                match lookup {
                    None => ResolveStep::Unresolved,
                    Some(parent_path) => {
                        let parent_name = last_component(parent_path.as_str());
                        let ghost b0 = cache_contents(*c);
                        let _ = lru_put(
                            c,
                            looked_up_fid,
                            (parent_path.clone(), parent_name),
                        );
                        let ghost mid = cache_contents(*c);
                        proof {
                            lemma_put_keeps_bound(b0, mid, looked_up_fid, cache_bound(*c));
                            assert(cache_put_post(
                                b0,
                                cache_bound(*c),
                                looked_up_fid,
                                (parent_path@, last_component_of(parent_path@)),
                                mid,
                            ));
                        }
                        let path = join_components(
                            parent_path.as_str(),
                            entry.file_name().as_str(),
                        );
                        if entry.is_dir() {
                            let _ = lru_put(
                                c,
                                entry.fid(),
                                (path.clone(), entry.file_name().clone()),
                            );
                            proof {
                                lemma_put_keeps_bound(
                                    mid,
                                    cache_contents(*c),
                                    entry.fid_spec(),
                                    cache_bound(*c),
                                );
                                assert(cache_put_post(
                                    mid,
                                    cache_bound(*c),
                                    entry.fid_spec(),
                                    (path@, entry.file_name_spec()),
                                    cache_contents(*c),
                                ));
                            }
                        }
                        ResolveStep::Resolved(path)
                    },
                }
            },
            None => {
                match lookup {
                    Some(p) => {
                        if looked_up_fid == entry.parent_fid() {
                            ResolveStep::Resolved(
                                join_components(p.as_str(), entry.file_name().as_str()),
                            )
                        } else {
                            ResolveStep::Resolved(p)
                        }
                    },
                    None => {
                        if looked_up_fid != entry.fid() {
                            ResolveStep::NeedLookup(entry.fid())
                        } else {
                            ResolveStep::Unresolved
                        }
                    },
                }
            },
        }
    }
}


/// The UTF-16 code units of the name carried by a name-information
/// block: a 32-bit byte length followed by that many name bytes.
pub open spec fn name_info_units(b: Seq<u8>) -> Seq<u16> {
    Seq::new((le_u32_at(b, 0) / 2) as nat, |k: int| le_u16_at(b, 4 + 2 * k))
}

/// The buffer holds a complete name-information block: the length field
/// fits, and the name it announces lies within the buffer.
pub open spec fn valid_name_info(b: Seq<u8>) -> bool {
    &&& b.len() >= 4
    &&& 4 + le_u32_at(b, 0) <= b.len()
}

/// The number of bytes a name-information block says it needs: its name
/// length plus the length field itself.
pub open spec fn name_info_needed_bytes(b: Seq<u8>) -> int {
    4 + le_u32_at(b, 0)
}

/// Reads how many bytes the name-information block in `buf` needs, so a
/// caller whose buffer was too small can grow it and ask again.
pub fn name_info_needed_len(buf: &[u8]) -> (r: Option<u64>)
    ensures
        buf@.len() >= 4 <==> r is Some,
        r matches Some(n) ==> n == name_info_needed_bytes(buf@),
{
    if buf.len() < 4 {
        return None;
    }
    Some(4u64 + read_le_u32(buf, 0) as u64)
}

/// Decodes the name out of a complete name-information block; a buffer
/// that cannot hold the name it announces is rejected.
pub fn parse_name_info(buf: &[u8]) -> (r: Option<String>)
    ensures
        valid_name_info(buf@) <==> r is Some,
        r matches Some(s) ==> s@ == utf16_lossy(name_info_units(buf@)),
{
    if buf.len() < 4 {
        return None;
    }
    let name_len = read_le_u32(buf, 0);
    if name_len as u64 > (buf.len() - 4) as u64 {
        return None;
    }
    let unit_count: usize = (name_len as usize) / 2;
    proof {
        vstd::arithmetic::div_mod::lemma_fundamental_div_mod(name_len as int, 2);
    }
    let mut units: Vec<u16> = Vec::new();
    let mut k: usize = 0;
    while k < unit_count
        invariant
            unit_count == name_len as int / 2,
            2 * unit_count <= name_len,
            4 + name_len <= buf@.len(),
            name_len == le_u32_at(buf@, 0),
            k <= unit_count,
            units@ == name_info_units(buf@).take(k as int),
        decreases unit_count - k,
    {
        proof {
            broadcast use vstd::slice::axiom_spec_len;

            assert(4 + 2 * (k as int) + 2 <= buf@.len());
            assert(buf@.len() == vstd::slice::spec_slice_len(buf));
        }
        let unit = read_le_u16(buf, 4 + 2 * k);
        units.push(unit);
        proof {
            assert(units@ =~= name_info_units(buf@).take(k as int + 1));
        }
        k = k + 1;
    }
    proof {
        assert(units@ =~= name_info_units(buf@));
    }
    Some(crate::text::utf16_lossy_string(units.as_slice()))
}

/// An ASCII lowercase letter raised to uppercase; any other character is
/// unchanged.
pub open spec fn ascii_upper(c: char) -> char {
    if 97 <= c as u32 && c as u32 <= 122 {
        ((c as u32) - 32) as char
    } else {
        c
    }
}

/// Raises an ASCII lowercase letter to uppercase.
pub fn ascii_upper_char(c: char) -> (r: char)
    ensures
        r == ascii_upper(c),
{
    let u = c as u32;
    if 97 <= u && u <= 122 {
        match char::from_u32(u - 32) {
            Some(d) => {
                proof {
                    vstd::utf8::char_u32_cast(d, (u - 32) as u32);
                }
                d
            },
            None => {
                proof {
                    assert(false);
                }
                c
            },
        }
    } else {
        c
    }
}

/// The absolute path of a name relative to the volume root: the
/// uppercased drive letter's root when the volume was opened by drive
/// letter, the mount point when it was opened by mount point, the bare
/// name otherwise.
pub open spec fn prefixed_path(
    drive_letter: Option<char>,
    mount_point: Option<Seq<char>>,
    sub: Seq<char>,
) -> Seq<char> {
    match drive_letter {
        Some(d) => seq![ascii_upper(d), ':', '\\'] + sub,
        None => match mount_point {
            Some(m) => joined_path(m, sub),
            None => sub,
        },
    }
}

/// Builds the absolute path of a volume-relative name, prefixing the
/// uppercased drive letter's root or the mount point.
pub fn volume_prefixed_path(
    drive_letter: Option<char>,
    mount_point: Option<&String>,
    sub_path: &str,
) -> (r: String)
    ensures
        r@ == prefixed_path(
            drive_letter,
            match mount_point {
                Some(m) => Some(m@),
                None => None,
            },
            sub_path@,
        ),
{
    match drive_letter {
        Some(d) => {
            let mut prefix: Vec<char> = Vec::new();
            prefix.push(ascii_upper_char(d));
            prefix.push(':');
            prefix.push('\\');
            proof {
                assert(prefix@ =~= seq![ascii_upper(d), ':', '\\']);
            }
            let out = crate::text::chars_to_string(prefix).concat(sub_path);
            out
        },
        None => match mount_point {
            Some(m) => join_components(m.as_str(), sub_path),
            None => sub_path.to_owned(),
        },
    }
}

} // verus!

//! The HTTP cache index: `ETag` / `Last-Modified` per URL, bounded in size.

use vstd::prelude::*;

use crate::crypto::verify::{parse_u64, parse_u64_chars};
use crate::str_map::StrMap;
use crate::text::{str_chars, trim, trim_chars};

verus! {

/// The current Unix time in seconds, from the system clock (0 if the clock is
/// before 1970).
#[verifier::external_body]
pub(crate) fn now_secs() -> u64 {
    std::time::SystemTime::now().duration_since(std::time::UNIX_EPOCH).unwrap_or_default().as_secs()
}

/// The cache entry of one URL.
#[derive(Debug)]
pub struct CacheEntry {
    /// The `ETag` header.
    pub etag: Option<String>,
    /// The `Last-Modified` header.
    pub last_modified: Option<String>,
    /// When the entry was written (Unix time, seconds).
    pub cached_at: u64,
}

impl View for CacheEntry {
    type V = (Option<Seq<char>>, Option<Seq<char>>, u64);

    open spec fn view(&self) -> (Option<Seq<char>>, Option<Seq<char>>, u64) {
        (
            match self.etag {
                Some(s) => Some(s@),
                None => None,
            },
            match self.last_modified {
                Some(s) => Some(s@),
                None => None,
            },
            self.cached_at,
        )
    }
}

fn clone_opt(o: &Option<String>) -> (r: Option<String>)
    ensures
        r == *o,
{
    match o {
        Some(s) => Some(s.clone()),
        None => None,
    }
}

impl Clone for CacheEntry {
    fn clone(&self) -> (r: CacheEntry)
        ensures
            r@ == self@,
    {
        CacheEntry {
            etag: clone_opt(&self.etag),
            last_modified: clone_opt(&self.last_modified),
            cached_at: self.cached_at,
        }
    }
}

/// The HTTP cache index (`http_cache.toml`): cache entries by URL.
#[derive(Debug)]
pub struct HttpCacheIndex {
    /// Entries by URL.
    pub entries: StrMap<CacheEntry>,
}

impl HttpCacheIndex {
    /// An empty index.
    pub fn new() -> (r: HttpCacheIndex)
        ensures
            r.entries@ == Map::<Seq<char>, (Option<Seq<char>>, Option<Seq<char>>, u64)>::empty(),
    {
        HttpCacheIndex { entries: StrMap::new() }
    }
}

/// The most entries the index may hold before it is cut back.
pub const CACHE_LIMIT: usize = 500;

/// The number of entries the index is cut back to.
pub const CACHE_KEEP: usize = 400;

/// `kept` is `full` cut back to the entries written most recently: it holds only
/// entries of `full`, and none it dropped is newer than one it kept.
pub open spec fn keeps_newest(
    full: Map<Seq<char>, (Option<Seq<char>>, Option<Seq<char>>, u64)>,
    kept: Map<Seq<char>, (Option<Seq<char>>, Option<Seq<char>>, u64)>,
) -> bool {
    &&& kept.submap_of(full)
    &&& forall|k: Seq<char>, d: Seq<char>|
        #[trigger] kept.contains_key(k) && #[trigger] full.contains_key(d) && !kept.contains_key(d)
            ==> full[d].2 <= kept[k].2
}

/// The index `after` is what recording `entry` for `url` in `before` leaves: the
/// entry inserted, then, past [`CACHE_LIMIT`] entries, cut back to the
/// [`CACHE_KEEP`] newest.
pub open spec fn cache_after_set(
    before: Map<Seq<char>, (Option<Seq<char>>, Option<Seq<char>>, u64)>,
    url: Seq<char>,
    entry: (Option<Seq<char>>, Option<Seq<char>>, u64),
    after: Map<Seq<char>, (Option<Seq<char>>, Option<Seq<char>>, u64)>,
) -> bool {
    let full = before.insert(url, entry);
    if full.dom().len() > CACHE_LIMIT {
        &&& keeps_newest(full, after)
        &&& after.dom().len() == CACHE_KEEP
    } else {
        after == full
    }
}

/// A written entry is read back: right after recording `entry` for `url`, the
/// entry of `url` is `entry`, when the index stayed within its limit or `entry`
/// is newer than every other entry.
pub proof fn law_cache_read_after_write(
    before: Map<Seq<char>, (Option<Seq<char>>, Option<Seq<char>>, u64)>,
    url: Seq<char>,
    entry: (Option<Seq<char>>, Option<Seq<char>>, u64),
    after: Map<Seq<char>, (Option<Seq<char>>, Option<Seq<char>>, u64)>,
)
    requires
        before.dom().finite(),
        cache_after_set(before, url, entry, after),
        before.insert(url, entry).dom().len() <= CACHE_LIMIT || forall|k: Seq<char>|
            #[trigger] before.contains_key(k) && k != url ==> before[k].2 < entry.2,
    ensures
        after.contains_key(url),
        after[url] == entry,
{
    let full = before.insert(url, entry);
    if full.dom().len() > CACHE_LIMIT {
        if !after.contains_key(url) {
            assert(after.dom().len() > 0);
            let k = after.dom().choose();
            assert(after.contains_key(k));
            assert(full.contains_key(k));
            assert(full.contains_key(url));
            assert(full[url].2 <= after[k].2);
            assert(k != url);
            assert(full[k] == before[k]);
            assert(false);
        }
        assert(after.submap_of(full));
        assert(after.dom().contains(url));
        assert(after[url] == full[url]);
    }
}

/// The cache entry of `url`.
pub fn get_cache_entry(index: &HttpCacheIndex, url: &str) -> (r: Option<CacheEntry>)
    ensures
        match r {
            Some(e) => index.entries@.contains_key(url@) && e@ == index.entries@[url@],
            None => !index.entries@.contains_key(url@),
        },
{
    match index.entries.get(url) {
        Some(e) => Some(e.clone()),
        None => None,
    }
}

/// Key of the oldest entry.
fn oldest_key(m: &StrMap<CacheEntry>) -> (r: String)
    requires
        m@.dom().len() > 0,
    ensures
        m@.contains_key(r@),
        forall|k: Seq<char>| #[trigger] m@.contains_key(k) ==> m@[r@].2 <= m@[k].2,
{
    let pairs = m.as_pairs();
    proof {
        if pairs@.len() == 0 {
            let k = m@.dom().choose();
            assert(m@.contains_key(k));
        }
    }
    let mut best: usize = 0;
    let mut i: usize = 1;
    while i < pairs.len()
        invariant
            0 < pairs@.len(),
            best < pairs@.len(),
            1 <= i <= pairs@.len(),
            forall|j: int| 0 <= j < i ==> pairs@[best as int].1.cached_at <= (#[trigger] pairs@[j]).1.cached_at,
        decreases pairs@.len() - i,
    {
        if pairs[i].1.cached_at < pairs[best].1.cached_at {
            best = i;
        }
        i = i + 1;
    }
    assert forall|k: Seq<char>| #[trigger] m@.contains_key(k) implies m@[pairs@[best as int].0@].2 <= m@[k].2 by {
        let j = choose|j: int| 0 <= j < pairs@.len() && pairs@[j].0@ == k;
        assert(m@[pairs@[j].0@] == pairs@[j].1@);
        assert(m@[pairs@[best as int].0@] == pairs@[best as int].1@);
    }
    pairs[best].0.clone()
}

/// Records the cache entry of `url`. When the index then holds more than
/// [`CACHE_LIMIT`] entries, it is cut back to the [`CACHE_KEEP`] written most recently.
pub fn set_cache_entry(index: &mut HttpCacheIndex, url: &str, entry: CacheEntry)
    ensures
        cache_after_set(old(index).entries@, url@, entry@, final(index).entries@),
{
    let ghost entry_view = entry@;
    index.entries.insert(String::from_str(url), entry);
    let ghost full = index.entries@;
    if index.entries.len() > CACHE_LIMIT {
        while index.entries.len() > CACHE_KEEP
            invariant
                keeps_newest(full, index.entries@),
                index.entries@.dom().finite(),
                index.entries@.dom().len() >= CACHE_KEEP,
            decreases index.entries@.dom().len(),
        {
            let ghost before = index.entries@;
            let oldest = oldest_key(&index.entries);
            index.entries.remove(oldest.as_str());
            proof {
                let after = index.entries@;
                assert forall|k: Seq<char>, d: Seq<char>|
                    #[trigger] after.contains_key(k) && #[trigger] full.contains_key(d)
                        && !after.contains_key(d) implies full[d].2 <= after[k].2 by {
                    assert(before.contains_key(k));
                    if d == oldest@ {
                        assert(full[d] == before[d]);
                    } else {
                        assert(!before.contains_key(d));
                    }
                }
                assert(after.submap_of(full));
            }
        }
    }
}

/// The conditional request headers for a URL with the given cache entry:
/// `If-None-Match` with its ETag, then `If-Modified-Since` with its
/// `Last-Modified`, each when known.
pub open spec fn conditional_headers_of(entry: Option<(Option<Seq<char>>, Option<Seq<char>>, u64)>) -> Seq<(Seq<char>, Seq<char>)> {
    match entry {
        None => Seq::empty(),
        Some((etag, lm, _)) => (match etag {
            Some(t) => seq![("If-None-Match"@, t)],
            None => Seq::empty(),
        }) + (match lm {
            Some(m) => seq![("If-Modified-Since"@, m)],
            None => Seq::empty(),
        }),
    }
}

/// The conditional headers to send for a URL whose cache entry is `entry`.
pub fn conditional_headers(entry: &Option<CacheEntry>) -> (r: Vec<(String, String)>)
    ensures
        r@.map_values(|p: (String, String)| (p.0@, p.1@)) == conditional_headers_of(
            match entry {
                Some(e) => Some(e@),
                None => None,
            },
        ),
{
    let mut v: Vec<(String, String)> = Vec::new();
    if let Some(e) = entry {
        if let Some(t) = &e.etag {
            v.push((String::from_str("If-None-Match"), t.clone()));
        }
        if let Some(m) = &e.last_modified {
            v.push((String::from_str("If-Modified-Since"), m.clone()));
        }
    }
    assert(v@.map_values(|p: (String, String)| (p.0@, p.1@)) =~= conditional_headers_of(
        match entry {
            Some(e) => Some(e@),
            None => None,
        },
    ));
    v
}

/// The cache entry to record from a response's `ETag` and `Last-Modified`
/// headers, stamped with the current time; none when the response has neither.
pub fn entry_from_headers(etag: Option<String>, last_modified: Option<String>) -> (r: Option<CacheEntry>)
    ensures
        (etag is None && last_modified is None) ==> r is None,
        !(etag is None && last_modified is None) ==> (r matches Some(e) && e.etag == etag
            && e.last_modified == last_modified),
{
    if etag.is_none() && last_modified.is_none() {
        return None;
    }
    Some(CacheEntry { etag, last_modified, cached_at: now_secs() })
}

/// The snapshot version stored in the cache file's text: the text without
/// surrounding white space, read as a decimal `u64`; none when it does not parse.
pub fn parse_snapshot_version(content: &str) -> (r: Option<u64>)
    ensures
        r == parse_u64(trim(content@)),
{
    let v = str_chars(content);
    let t = trim_chars(&v);
    parse_u64_chars(&t)
}

} // verus!

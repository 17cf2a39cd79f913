//! Throwing things out of the cache.
use vstd::prelude::*;
use vstd::string::*;
use crate::paths;
use crate::text;

verus! {

/// Something in the directory of the generated packages.
#[derive(Debug)]
pub struct CacheEntry {
    pub path: String,
    /// Whether it is a file, and so no package.
    pub is_file: bool,
    /// When the metadata file of the package was last modified, in milliseconds: `None` where
    /// it could not be opened.
    pub meta_mtime: Option<u128>,
}

/// What a `CacheEntry` says.
pub struct CacheEntryView {
    pub path: Seq<char>,
    pub is_file: bool,
    pub meta_mtime: Option<u128>,
}

impl View for CacheEntry {
    type V = CacheEntryView;

    open spec fn view(&self) -> CacheEntryView {
        CacheEntryView {
            path: self.path@,
            is_file: self.is_file,
            meta_mtime: self.meta_mtime,
        }
    }
}

/// What each entry of a list says.
pub open spec fn entries_view(entries: Seq<CacheEntry>) -> Seq<CacheEntryView> {
    entries.map_values(|e: CacheEntry| e@)
}

/// Whether an entry is thrown out: a package whose metadata is not there, or is as old as the
/// cutoff or older.
///
/// What counts is the timestamp on the metadata file *itself*: expressions and loops have no
/// modification time of their own.
pub open spec fn is_stale(entry: CacheEntryView, cutoff: int) -> bool {
    !entry.is_file && (entry.meta_mtime matches Some(mtime) ==> mtime <= cutoff)
}

/// The paths of the entries that are thrown out.
pub open spec fn stale_paths(entries: Seq<CacheEntryView>, cutoff: int) -> Seq<Seq<char>> {
    entries.filter(|e: CacheEntryView| is_stale(e, cutoff)).map_values(|e: CacheEntryView| e.path)
}

/// The directories that are removed from the cache.
pub open spec fn removals(
    max_age: u128,
    now: u128,
    bin_is_dir: bool,
    entries: Seq<CacheEntryView>,
    cache_dir: Seq<char>,
) -> Seq<Seq<char>> {
    (if max_age == 0 && bin_is_dir {
        seq![paths::binary_cache(cache_dir)]
    } else {
        Seq::empty()
    }) + stale_paths(entries, now - max_age)
}

/// Clean up the cache folder: says which directories to remove, in order.
///
/// These are all packages whose metadata says they were created at least `max_age` in the past,
/// and, where `max_age` is zero, the shared binaries.  `now` is the current time, `bin_is_dir`
/// says whether there are shared binaries, and `entries` is what the directory of the generated
/// packages holds.
pub fn clean_cache(
    max_age: u128,
    now: u128,
    bin_is_dir: bool,
    entries: &Vec<CacheEntry>,
    cache_dir: &str,
) -> (r: Vec<String>)
    requires
        max_age <= now,
    ensures
        text::texts(r@) == removals(max_age, now, bin_is_dir, entries_view(entries@), cache_dir@),
{
    let mut r: Vec<String> = Vec::new();
    if max_age == 0 && bin_is_dir {
        r.push(paths::binary_cache_path(cache_dir));
    }
    let ghost start = text::texts(r@);
    assert(start =~= (if max_age == 0 && bin_is_dir {
        seq![paths::binary_cache(cache_dir@)]
    } else {
        Seq::empty()
    }));
    let cutoff: u128 = now - max_age;
    let ghost all = entries_view(entries@);
    let ghost stale = |e: CacheEntryView| is_stale(e, cutoff as int);
    let ghost path_of = |e: CacheEntryView| e.path;
    let mut i: usize = 0;
    proof {
        reveal(Seq::filter);
        assert(all.take(0) =~= Seq::empty());
        assert(start =~= start + all.take(0).filter(stale).map_values(path_of));
    }
    while i < entries.len()
        invariant
            i <= entries.len(),
            all == entries_view(entries@),
            stale == |e: CacheEntryView| is_stale(e, cutoff as int),
            path_of == |e: CacheEntryView| e.path,
            text::texts(r@) == start + all.take(i as int).filter(stale).map_values(path_of),
        decreases entries.len() - i,
    {
        let ghost before = all.take(i as int);
        let ghost upto = all.take(i + 1);
        let ghost listed = text::texts(r@);
        let entry: &CacheEntry = &entries[i];
        proof {
            reveal(Seq::filter);
            assert(upto.drop_last() =~= before);
            assert(upto.last() == entry@);
        }
        let remove: bool = !entry.is_file && (match entry.meta_mtime {
            Some(mtime) => mtime <= cutoff,
            None => true,
        });
        if remove {
            r.push(entry.path.clone());
            proof {
                let kept = before.filter(stale);
                assert(upto.filter(stale) == kept.push(entry@));
                assert(kept.push(entry@).map_values(path_of) =~= kept.map_values(path_of).push(
                    entry@.path,
                ));
                assert(text::texts(r@) =~= listed.push(entry@.path));
                assert(text::texts(r@) =~= start + upto.filter(stale).map_values(path_of));
            }
        }
        i = i + 1;
    }
    assert(all.take(i as int) =~= all);
    r
}

/// A package is kept exactly as long as its metadata is younger than the greatest age.
pub proof fn young_packages_stay(entry: CacheEntryView, max_age: u128, now: u128, mtime: u128)
    requires
        max_age <= now,
        entry.meta_mtime == Some(mtime),
        !entry.is_file,
    ensures
        is_stale(entry, now - max_age) <==> mtime + max_age <= now,
{
}

/// A greater age throws nothing out that a smaller one leaves.
pub proof fn greater_age_keeps_more(
    entry: CacheEntryView,
    smaller: u128,
    greater: u128,
    now: u128,
)
    requires
        smaller <= greater <= now,
        is_stale(entry, now - greater),
    ensures
        is_stale(entry, now - smaller),
{
}

/// Clearing the cache throws every package out whose metadata was not modified after now.
pub proof fn clearing_leaves_no_package(
    entries: Seq<CacheEntryView>,
    i: int,
    now: u128,
    bin_is_dir: bool,
    cache_dir: Seq<char>,
)
    requires
        0 <= i < entries.len(),
        !entries[i].is_file,
        entries[i].meta_mtime matches Some(mtime) ==> mtime <= now,
    ensures
        removals(0, now, bin_is_dir, entries, cache_dir).contains(entries[i].path),
        bin_is_dir ==> removals(0, now, bin_is_dir, entries, cache_dir).contains(
            paths::binary_cache(cache_dir),
        ),
{
    let stale = |e: CacheEntryView| is_stale(e, now as int);
    let path_of = |e: CacheEntryView| e.path;
    let kept = entries.filter(stale);
    let all = removals(0, now, bin_is_dir, entries, cache_dir);
    assert(stale(entries[i]));
    entries.lemma_filter_contains(stale, i);
    let k = choose|k: int| 0 <= k < kept.len() && kept[k] == entries[i];
    let paths = kept.map_values(path_of);
    assert(paths[k] == entries[i].path);
    let offset = all.len() - paths.len();
    assert(all[offset + k] == paths[k]);
    if bin_is_dir {
        assert(all[0] == paths::binary_cache(cache_dir));
    }
}

/// Nothing is removed but packages that are in the cache and, where it is cleared, the shared
/// binaries; files stay.
pub proof fn only_packages_are_removed(
    entries: Seq<CacheEntryView>,
    max_age: u128,
    now: u128,
    bin_is_dir: bool,
    cache_dir: Seq<char>,
    path: Seq<char>,
)
    requires
        max_age <= now,
        removals(max_age, now, bin_is_dir, entries, cache_dir).contains(path),
    ensures
        (max_age == 0 && bin_is_dir && path == paths::binary_cache(cache_dir)) || exists|i: int|
            0 <= i < entries.len() && (#[trigger] entries[i]).path == path && !entries[i].is_file
                && is_stale(entries[i], now - max_age),
{
    let stale = |e: CacheEntryView| is_stale(e, now - max_age);
    let path_of = |e: CacheEntryView| e.path;
    let kept = entries.filter(stale);
    let all = removals(max_age, now, bin_is_dir, entries, cache_dir);
    let k = choose|k: int| 0 <= k < all.len() && all[k] == path;
    let paths = kept.map_values(path_of);
    let offset = all.len() - paths.len();
    if k >= offset {
        assert(all[k] == paths[k - offset]);
        let e = kept[k - offset];
        assert(kept.contains(e));
        entries.lemma_filter_pred(stale, k - offset);
        entries.lemma_filter_contains_rev(stale, e);
        let i = choose|i: int| 0 <= i < entries.len() && entries[i] == e;
        assert(entries[i].path == path);
    }
}

} // verus!

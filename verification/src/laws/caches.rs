//! What is thrown out of the cache.
use vstd::prelude::*;
use vstd::string::*;
use crate::cache::{self, CacheEntryView};
use crate::paths;

verus! {

/// Of an empty cache nothing is thrown out but the shared binaries, where there are any and all of
/// the cache is cleared.
pub proof fn empty_caches_hold_binaries_alone(
    max_age: u128,
    now: u128,
    bin_is_dir: bool,
    cache_dir: Seq<char>,
)
    ensures
        max_age == 0 && bin_is_dir ==> cache::removals(
            max_age,
            now,
            bin_is_dir,
            Seq::empty(),
            cache_dir,
        ) == seq![paths::path_join(cache_dir, "bin"@)],
        max_age != 0 || !bin_is_dir ==> cache::removals(
            max_age,
            now,
            bin_is_dir,
            Seq::empty(),
            cache_dir,
        ).len() == 0,
{
    reveal(Seq::filter);
    assert(cache::stale_paths(Seq::empty(), now - max_age) =~= Seq::empty());
    assert(seq![paths::path_join(cache_dir, "bin"@)] + Seq::<Seq<char>>::empty() =~= seq![
        paths::path_join(cache_dir, "bin"@),
    ]);
}

/// One more entry adds itself at the end of what is thrown out, if it is a package whose metadata is
/// missing or has reached the age, and otherwise changes nothing.
pub proof fn each_entry_is_judged_for_itself(
    max_age: u128,
    now: u128,
    bin_is_dir: bool,
    entries: Seq<CacheEntryView>,
    entry: CacheEntryView,
    cache_dir: Seq<char>,
)
    requires
        max_age <= now,
    ensures
        ({
            let before = cache::removals(max_age, now, bin_is_dir, entries, cache_dir);
            let after = cache::removals(max_age, now, bin_is_dir, entries.push(entry), cache_dir);
            &&& entry.is_file ==> after == before
            &&& !entry.is_file && entry.meta_mtime is None ==> after == before.push(entry.path)
            &&& !entry.is_file ==> (entry.meta_mtime matches Some(mtime) ==> after == if mtime
                + max_age <= now {
                before.push(entry.path)
            } else {
                before
            })
        }),
{
    reveal(Seq::filter);
    let stale = |e: CacheEntryView| cache::is_stale(e, now - max_age);
    let path_of = |e: CacheEntryView| e.path;
    let more = entries.push(entry);
    assert(more.drop_last() =~= entries);
    assert(more.last() == entry);
    let kept = entries.filter(stale);
    if stale(entry) {
        assert(more.filter(stale) == kept.push(entry));
        assert(kept.push(entry).map_values(path_of) =~= kept.map_values(path_of).push(entry.path));
    }
    let before = cache::removals(max_age, now, bin_is_dir, entries, cache_dir);
    let after = cache::removals(max_age, now, bin_is_dir, more, cache_dir);
    assert(after =~= if stale(entry) {
        before.push(entry.path)
    } else {
        before
    });
}

} // verus!

//! Where things are.  A path is held as text; how a text is read as a path is std's business,
//! and is fixed, as the width of `usize` is, by the platform that the crate is compiled for.
use std::path::Path;
use vstd::prelude::*;
use vstd::string::*;
use crate::build_kind::BuildKind;
use crate::error::{self, MainError, MainErrorView};
use crate::text;

verus! {

/// The path `leaf` seen from the directory `dir`, as `std::path::Path::join` gives it.
pub uninterp spec fn path_join(dir: Seq<char>, leaf: Seq<char>) -> Seq<char>;

/// The path without its last component, as `std::path::Path::parent` gives it: `None` where it
/// ends in a root or a prefix, or is empty.
pub uninterp spec fn path_parent(path: Seq<char>) -> Option<Seq<char>>;

/// The last component without its extension, as `std::path::Path::file_stem` gives it.
pub uninterp spec fn path_stem(path: Seq<char>) -> Option<Seq<char>>;

/// The extension of the last component, as `std::path::Path::extension` gives it.
pub uninterp spec fn path_extension(path: Seq<char>) -> Option<Seq<char>>;

/// The path with another extension, as `std::path::Path::with_extension` gives it.
pub uninterp spec fn path_with_extension(path: Seq<char>, ext: Seq<char>) -> Seq<char>;

/// Whether a text is a plain name: one that starts with no dot and holds nothing that a path gives
/// a meaning to.
pub open spec fn is_plain_name(s: Seq<char>) -> bool {
    &&& s.len() > 0
    &&& s[0] != '.'
    &&& forall|i: int| 0 <= i < s.len() ==> s[i] != '/' && s[i] != '\\' && s[i] != ':'
}

/// `std::path::Path::join` on texts: the result is a function of the two texts, and plain names are
/// adjoined to what the directory alone makes stand before them.
#[verifier::external_body]
pub(crate) fn join(dir: &str, leaf: &str) -> (r: String)
    ensures
        r@ == path_join(dir@, leaf@),
        is_plain_name(leaf@) ==> forall|other: Seq<char>|
            is_plain_name(other) ==> #[trigger] path_join(dir@, other) == r@.take(
                r@.len() - leaf@.len(),
            ) + other,
{
    Path::new(dir).join(leaf).to_string_lossy().into_owned()
}

/// `std::path::Path::parent` on a text: the result is a function of the text.
#[verifier::external_body]
pub(crate) fn parent(path: &str) -> (r: Option<String>)
    ensures
        text::opt_text(r) == path_parent(path@),
{
    match Path::new(path).parent() {
        Some(p) => Some(p.to_string_lossy().into_owned()),
        None => None,
    }
}

/// `std::path::Path::file_stem` on a text: the result is a function of the text.
#[verifier::external_body]
pub(crate) fn file_stem(path: &str) -> (r: Option<String>)
    ensures
        text::opt_text(r) == path_stem(path@),
{
    match Path::new(path).file_stem() {
        Some(s) => Some(s.to_string_lossy().into_owned()),
        None => None,
    }
}

/// `std::path::Path::extension` on a text: the result is a function of the text.
#[verifier::external_body]
pub(crate) fn extension(path: &str) -> (r: Option<String>)
    ensures
        text::opt_text(r) == path_extension(path@),
{
    match Path::new(path).extension() {
        Some(s) => Some(s.to_string_lossy().into_owned()),
        None => None,
    }
}

/// `std::path::Path::with_extension` on texts: the result is a function of the two texts.  It
/// panics where the extension holds a path separator.
#[verifier::external_body]
pub(crate) fn with_extension(path: &str, ext: &str) -> (r: String)
    requires
        forall|i: int| 0 <= i < ext@.len() ==> ext@[i] != '/' && ext@[i] != '\\',
    ensures
        r@ == path_with_extension(path@, ext@),
{
    Path::new(path).with_extension(ext).to_string_lossy().into_owned()
}

/// The directory of the generated packages, given that of the whole cache.
pub open spec fn script_cache(cache_dir: Seq<char>) -> Seq<char> {
    path_join(cache_dir, "scripts"@)
}

/// The directory of the shared binaries, given that of the whole cache.
pub open spec fn binary_cache(cache_dir: Seq<char>) -> Seq<char> {
    path_join(cache_dir, "bin"@)
}

/// Whether neither of two paths begins with the other, so that they differ and neither lies inside
/// the other.
pub open spec fn are_apart(a: Seq<char>, b: Seq<char>) -> bool {
    !a.is_prefix_of(b) && !b.is_prefix_of(a)
}

/// Paths that go on differently after the same start are apart.
proof fn apart_after(start: Seq<char>, a: Seq<char>, b: Seq<char>, i: int)
    requires
        0 <= i < a.len(),
        i < b.len(),
        a[i] != b[i],
    ensures
        are_apart(start + a, start + b),
{
    assert((start + a)[start.len() + i] == a[i]);
    assert((start + b)[start.len() + i] == b[i]);
}

/// The directories of the generated packages and of the shared binaries are apart.
pub open spec fn caches_are_apart(cache_dir: Seq<char>) -> bool {
    are_apart(script_cache(cache_dir), binary_cache(cache_dir))
}

/// Returns the path to the cache directory of the generated packages, which is apart from the
/// binary cache directory.
pub fn script_cache_path(cache_dir: &str) -> (r: String)
    ensures
        r@ == script_cache(cache_dir@),
        caches_are_apart(cache_dir@),
{
    let r: String = join(cache_dir, "scripts");
    proof {
        reveal_strlit("scripts");
        reveal_strlit("bin");
        apart_after(r@.take(r@.len() - "scripts"@.len()), "scripts"@, "bin"@, 0);
    }
    r
}

/// Returns the path to the binary cache directory, which is apart from the directory of the
/// generated packages.
pub fn binary_cache_path(cache_dir: &str) -> (r: String)
    ensures
        r@ == binary_cache(cache_dir@),
        caches_are_apart(cache_dir@),
{
    let r: String = join(cache_dir, "bin");
    proof {
        reveal_strlit("scripts");
        reveal_strlit("bin");
        apart_after(r@.take(r@.len() - "bin"@.len()), "scripts"@, "bin"@, 0);
    }
    r
}

/// The file that holds a package's metadata.
pub open spec fn pkg_metadata_path(pkg_path: Seq<char>) -> Seq<char> {
    path_join(pkg_path, "metadata.json"@)
}

/// The files that are kept beside a package's manifest and source are apart.
pub open spec fn kept_files_are_apart(pkg_path: Seq<char>) -> bool {
    &&& are_apart(pkg_metadata_path(pkg_path), meta_hash_path(pkg_path))
    &&& are_apart(pkg_metadata_path(pkg_path), exe_path_file(pkg_path))
    &&& are_apart(meta_hash_path(pkg_path), exe_path_file(pkg_path))
}

/// The files that are kept beside a package's manifest and source are apart, given that their
/// names come after the same start.
proof fn kept_names_are_apart(pkg_path: Seq<char>, start: Seq<char>)
    requires
        pkg_metadata_path(pkg_path) == start + "metadata.json"@,
        meta_hash_path(pkg_path) == start + "target.meta-hash"@,
        exe_path_file(pkg_path) == start + "target.exe_path"@,
    ensures
        kept_files_are_apart(pkg_path),
{
    reveal_strlit("metadata.json");
    reveal_strlit("target.meta-hash");
    reveal_strlit("target.exe_path");
    apart_after(start, "metadata.json"@, "target.meta-hash"@, 0);
    apart_after(start, "metadata.json"@, "target.exe_path"@, 0);
    apart_after(start, "target.meta-hash"@, "target.exe_path"@, 7);
}

/// The names of the files that are kept beside a package's manifest and source are plain.
proof fn kept_names_are_plain()
    ensures
        is_plain_name("metadata.json"@),
        is_plain_name("target.meta-hash"@),
        is_plain_name("target.exe_path"@),
{
    reveal_strlit("metadata.json");
    reveal_strlit("target.meta-hash");
    reveal_strlit("target.exe_path");
}

/// Work out the path to a package's metadata file.
pub fn get_pkg_metadata_path(pkg_path: &str) -> (r: String)
    ensures
        r@ == pkg_metadata_path(pkg_path@),
        kept_files_are_apart(pkg_path@),
{
    let r: String = join(pkg_path, "metadata.json");
    proof {
        kept_names_are_plain();
        kept_names_are_apart(pkg_path@, r@.take(r@.len() - "metadata.json"@.len()));
    }
    r
}

/// The file that ties a package's executable to its metadata.
pub open spec fn meta_hash_path(pkg_path: Seq<char>) -> Seq<char> {
    path_join(pkg_path, "target.meta-hash"@)
}

/// Figures out where the `meta-hash` file should be.  There is one only where the binary cache
/// is used.
pub fn get_meta_hash_path(use_bincache: bool, pkg_path: &str) -> (r: String)
    requires
        use_bincache,
    ensures
        r@ == meta_hash_path(pkg_path@),
        kept_files_are_apart(pkg_path@),
{
    let r: String = join(pkg_path, "target.meta-hash");
    proof {
        kept_names_are_plain();
        kept_names_are_apart(pkg_path@, r@.take(r@.len() - "target.meta-hash"@.len()));
    }
    r
}

/// The file that holds the path of a package's executable.
pub open spec fn exe_path_file(pkg_path: Seq<char>) -> Seq<char> {
    path_join(pkg_path, "target.exe_path"@)
}

/// Works out the path to the file that holds the path of a package's executable.
pub(crate) fn exe_path_cache(pkg_path: &str) -> (r: String)
    ensures
        r@ == exe_path_file(pkg_path@),
        kept_files_are_apart(pkg_path@),
{
    let r: String = join(pkg_path, "target.exe_path");
    proof {
        kept_names_are_plain();
        kept_names_are_apart(pkg_path@, r@.take(r@.len() - "target.exe_path"@.len()));
    }
    r
}

/// The error for asking after an executable that is not run directly.
pub open spec fn no_direct_exe() -> MainErrorView {
    error::internal("tried to get executable path for test/bench build"@)
}

/// Figures out which file says where the output executable is.
///
/// The file is there only once the executable has been looked for after a build.
pub fn get_exe_path(build_kind: BuildKind, pkg_path: &str) -> (r: Result<String, MainError>)
    ensures
        r is Ok <==> build_kind == BuildKind::Normal,
        r matches Ok(path) ==> path@ == exe_path_file(pkg_path@) && kept_files_are_apart(pkg_path@),
        r matches Err(e) ==> e@ == no_direct_exe(),
{
    match build_kind {
        BuildKind::Normal => Ok(exe_path_cache(pkg_path)),
        BuildKind::Test | BuildKind::Bench => Err(
            MainError::internal("tried to get executable path for test/bench build"),
        ),
    }
}

/// The paths under which a script is looked for, in order: the path as given, and, where that
/// has no extension, the path with the extensions of scripts.
pub open spec fn script_candidates(path: Seq<char>) -> Seq<Seq<char>> {
    if path_extension(path) is Some {
        seq![path]
    } else {
        seq![path, path_with_extension(path, "crs"@), path_with_extension(path, "rs"@)]
    }
}

/// The next path at which to look for a script, after none of the first `tried` could be
/// opened: `None` where there is none left.  If the path as-given doesn't yield anything, file
/// extensions are added to it.
pub fn find_script(path: &str, tried: usize) -> (r: Option<String>)
    ensures
        text::opt_text(r) == if tried < script_candidates(path@).len() {
            Some(script_candidates(path@)[tried as int])
        } else {
            None
        },
{
    proof {
        reveal_strlit("crs");
        reveal_strlit("rs");
    }
    if tried == 0 {
        return Some(path.to_owned());
    }
    // If it had an extension, don't bother trying any others.
    if extension(path).is_some() || tried > 2 {
        return None;
    }
    let ext: &str = if tried == 1 { "crs" } else { "rs" };
    Some(with_extension(path, ext))
}

/// The name of a script file: its file name without the extension.
pub open spec fn script_name_of(path: Seq<char>) -> Seq<char> {
    match path_stem(path) {
        Some(stem) => stem,
        None => "unknown"@,
    }
}

/// The name of a script file: its file name without the extension.
pub fn script_name(path: &str) -> (r: String)
    ensures
        r@ == script_name_of(path@),
{
    match file_stem(path) {
        Some(stem) => stem,
        None => "unknown".to_owned(),
    }
}

} // verus!

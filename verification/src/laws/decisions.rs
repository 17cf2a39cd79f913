//! What is decided on for a script.
use vstd::prelude::*;
use vstd::string::*;
use vstd::utf8::*;
use crate::action::{self, DecisionView, InputActionView};
use crate::args::ArgsView;
use crate::build_kind::BuildKind;
use crate::digest;
use crate::error::Blame;
use crate::input::InputView;
use crate::metadata::PackageMetadataView;
use crate::paths;

verus! {

/// The metadata that is decided on says where the script comes from, what it depends on, and what
/// its manifest and its source are.
pub proof fn metadata_describes_the_script(
    input: InputView,
    deps: Seq<(Seq<char>, Seq<char>)>,
    prelude: Seq<Seq<char>>,
    args: ArgsView,
    manifest: Seq<char>,
    script: Seq<char>,
    cache_dir: Seq<char>,
)
    ensures
        ({
            let found = action::first_action(
                input,
                deps,
                prelude,
                args,
                manifest,
                script,
                cache_dir,
            ).metadata;
            &&& input matches InputView::File(_, path, _, modified) ==> found.path == Some(path)
                && found.modified == Some(modified) && found.template is None
            &&& input matches InputView::Expr(_, template) ==> found.path is None
                && found.modified is None && found.template == template
            &&& input is Loop ==> found.path is None && found.modified is None
                && found.template is None
            &&& found.deps == deps
            &&& found.prelude == prelude
            &&& found.features == args.features
            &&& found.manifest_hash == digest::sha1_hex(manifest)
            &&& found.script_hash == digest::sha1_hex(script)
        }),
{
}

/// A regular build is for debugging exactly where `--debug` is given; tests always are, and
/// benchmarks never.
pub proof fn debug_is_asked_for(
    input: InputView,
    deps: Seq<(Seq<char>, Seq<char>)>,
    prelude: Seq<Seq<char>>,
    args: ArgsView,
    manifest: Seq<char>,
    script: Seq<char>,
    cache_dir: Seq<char>,
)
    ensures
        ({
            let found = action::first_action(
                input,
                deps,
                prelude,
                args,
                manifest,
                script,
                cache_dir,
            ).metadata.debug;
            &&& args.build_kind == BuildKind::Normal ==> found == args.debug
            &&& args.build_kind == BuildKind::Test ==> found
            &&& args.build_kind == BuildKind::Bench ==> !found
        }),
{
}

/// Whatever has been found of earlier invocations, a regular script is built with `--release` exactly
/// where `--debug` is not given: it stands behind the manifest and what asks for colors.
pub proof fn release_builds_are_the_default(
    input: InputView,
    deps: Seq<(Seq<char>, Seq<char>)>,
    prelude: Seq<Seq<char>>,
    args: ArgsView,
    manifest: Seq<char>,
    script: Seq<char>,
    cache_dir: Seq<char>,
    color: bool,
    cached: Option<PackageMetadataView>,
    exe_exists: bool,
    found: Option<Seq<char>>,
)
    requires
        args.build_kind == BuildKind::Normal,
    ensures
        ({
            let action = action::settled(
                action::first_action(input, deps, prelude, args, manifest, script, cache_dir),
                args.gen_pkg_only,
                cached,
                exe_exists,
                found,
            );
            let build = action.cargo("build"@, color, cache_dir).args;
            let at: int = if color {
                5
            } else {
                3
            };
            &&& !args.debug ==> build.len() > at && build[at] == "--release"@
            &&& args.debug && args.features is None ==> build.len() == at
            &&& args.debug ==> (args.features matches Some(f) ==> build.len() == at + 2
                && build[at] == "--features"@ && build[at + 1] == f)
            &&& !args.debug ==> (args.features matches Some(f) ==> build.len() == at + 3
                && build[at + 1] == "--features"@ && build[at + 2] == f)
        }),
{
    reveal_strlit("build");
    reveal_strlit("bench");
    assert("build"@[1] != "bench"@[1]);
}

/// At first a compile is to be done, and forced, exactly where a regular script is forced; what is
/// built is to be run unless a regular script is only to be built.  Metadata is to be written in any
/// case, and nothing is known of earlier invocations.
pub proof fn flags_decide_at_first(
    input: InputView,
    deps: Seq<(Seq<char>, Seq<char>)>,
    prelude: Seq<Seq<char>>,
    args: ArgsView,
    manifest: Seq<char>,
    script: Seq<char>,
    cache_dir: Seq<char>,
)
    ensures
        ({
            let a = action::first_action(input, deps, prelude, args, manifest, script, cache_dir);
            &&& args.build_kind == BuildKind::Normal ==> a.compile == args.force
                && a.force_compile == args.force && a.execute == !args.build_only
            &&& args.build_kind != BuildKind::Normal ==> !a.compile && !a.force_compile && a.execute
            &&& a.emit_metadata
            &&& a.old_metadata is None
            &&& a.manifest == manifest
            &&& a.script == script
            &&& a.build_kind == args.build_kind
        }),
{
}

/// A package is kept where the user says, and is then not in the cache; otherwise it is kept in the
/// cache, under the ID of the script.  The user also says whether shared binaries are used, and if
/// not, they are exactly for what is in the cache.
pub proof fn packages_are_kept_where_they_belong(
    input: InputView,
    deps: Seq<(Seq<char>, Seq<char>)>,
    prelude: Seq<Seq<char>>,
    args: ArgsView,
    manifest: Seq<char>,
    script: Seq<char>,
    cache_dir: Seq<char>,
)
    ensures
        ({
            let a = action::first_action(input, deps, prelude, args, manifest, script, cache_dir);
            &&& args.pkg_path matches Some(path) ==> a.pkg_path == path && !a.using_cache
            &&& args.pkg_path is None ==> a.using_cache && a.pkg_path == paths::path_join(
                paths::path_join(cache_dir, "scripts"@),
                input.id(deps),
            )
            &&& args.use_bincache matches Some(wanted) ==> a.use_bincache == wanted
            &&& args.use_bincache is None ==> a.use_bincache == (args.pkg_path is None)
        }),
{
}

/// Something is decided exactly where the manifest, the source and, for a package in the cache, what
/// its ID is made from are short enough to be hashed.
pub proof fn when_something_is_decided(
    input: InputView,
    deps: Seq<(Seq<char>, Seq<char>)>,
    args: ArgsView,
    manifest: Seq<char>,
    script: Seq<char>,
)
    ensures
        action::all_digestible(input, deps, args, manifest, script) <==> {
            &&& encode_utf8(manifest).len() <= 0x1fff_ffff_ffff_ffff
            &&& encode_utf8(script).len() <= 0x1fff_ffff_ffff_ffff
            &&& args.pkg_path is Some || encode_utf8(input.id_text(deps)).len()
                <= 0x1fff_ffff_ffff_ffff
        },
{
}

/// Where only the package is asked for, it is settled at once that nothing is compiled or run; where
/// tests or benchmarks are, that nothing is compiled here.  Otherwise the metadata of the previous
/// invocation is needed.  Nothing else changes.
pub proof fn flags_may_settle_it(a: InputActionView, gen_pkg_only: bool)
    ensures
        gen_pkg_only ==> action::after_flags(a, gen_pkg_only) == DecisionView::Act(
            InputActionView { compile: false, execute: false, ..a },
        ),
        !gen_pkg_only && a.build_kind == BuildKind::Normal ==> action::after_flags(a, gen_pkg_only)
            == DecisionView::NeedMetadata(a),
        !gen_pkg_only && a.build_kind != BuildKind::Normal ==> action::after_flags(a, gen_pkg_only)
            == DecisionView::Act(InputActionView { compile: false, force_compile: false, ..a }),
{
}

/// Missing metadata and different metadata settle that a compile is due; only exactly the same
/// metadata leaves it open.  What was found is kept, and nothing else changes.
pub proof fn metadata_may_settle_it(a: InputActionView, cached: Option<PackageMetadataView>)
    ensures
        cached is None ==> action::after_metadata(a, cached) == DecisionView::Act(
            InputActionView { compile: true, ..a },
        ),
        cached matches Some(m) ==> {
            &&& m != a.metadata ==> action::after_metadata(a, cached) == DecisionView::Act(
                InputActionView { compile: true, old_metadata: Some(m), ..a },
            )
            &&& m == a.metadata ==> action::after_metadata(a, cached) == DecisionView::NeedExe(
                InputActionView { old_metadata: Some(m), ..a },
            )
        },
{
}

/// A missing executable settles that a compile is due, and one that is there that none is, unless the
/// binaries are shared.
pub proof fn executables_may_settle_it(a: InputActionView)
    ensures
        action::after_exe(a, false) == DecisionView::Act(InputActionView { compile: true, ..a }),
        a.use_bincache ==> action::after_exe(a, true) == DecisionView::NeedMetaHash(a),
        !a.use_bincache ==> action::after_exe(a, true) == DecisionView::Act(a),
{
}

/// With shared binaries, a compile is forced unless the executable is tied to the very metadata that
/// was decided on, by the digest of how that is written.
pub proof fn hashes_settle_it(a: InputActionView, found: Option<Seq<char>>)
    ensures
        found == Some(digest::sha1_hex(a.metadata.written())) ==> action::after_meta_hash(a, found)
            == a,
        found != Some(digest::sha1_hex(a.metadata.written())) ==> action::after_meta_hash(a, found)
            == (InputActionView { compile: true, force_compile: true, ..a }),
        a.metadata.hash() == digest::sha1_hex(a.metadata.written()),
        encode_utf8(a.metadata.written()).len() <= 0x1fff_ffff_ffff_ffff ==> a.metadata.try_hash()
            == Ok::<Seq<char>, crate::error::MainErrorView>(
            digest::sha1_hex(a.metadata.written()),
        ),
        encode_utf8(a.metadata.written()).len() > 0x1fff_ffff_ffff_ffff ==> (
        a.metadata.try_hash() matches Err(e) && e.blame == Blame::Internal && e.message
            == "text is too long to hash"@),
{
}

/// A regular script is compiled exactly where that is forced, its metadata is missing or different,
/// its executable is missing, or that is shared and not tied to the metadata; in the last case alone
/// is a compile forced that was not asked to be.  What was found is remembered, and whether it is run
/// does not depend on any of it.
pub proof fn when_scripts_are_compiled(
    a: InputActionView,
    cached: Option<PackageMetadataView>,
    exe_exists: bool,
    found: Option<Seq<char>>,
)
    requires
        a.build_kind == BuildKind::Normal,
        a.old_metadata is None,
    ensures
        ({
            let same = cached == Some(a.metadata);
            let tied = found == Some(digest::sha1_hex(a.metadata.written()));
            let b = action::settled(a, false, cached, exe_exists, found);
            &&& b.compile <==> a.compile || !same || !exe_exists || a.use_bincache && !tied
            &&& b.force_compile <==> a.force_compile || same && exe_exists && a.use_bincache
                && !tied
            &&& b.execute == a.execute
            &&& b.old_metadata == cached
            &&& b.metadata == a.metadata
            &&& b.pkg_path == a.pkg_path
            &&& b.manifest == a.manifest
            &&& b.script == a.script
        }),
{
}

} // verus!

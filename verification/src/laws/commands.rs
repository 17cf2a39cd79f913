//! What Cargo is told to do, and what its answers mean.
use vstd::prelude::*;
use vstd::string::*;
use crate::action::InputActionView;
use crate::cargo::{self, BuildMessageView};
use crate::error::Blame;
use crate::metadata::PackageMetadataView;
use crate::paths;
use crate::text;

verus! {

/// A Cargo command is the given subcommand on the given manifest, and nothing more where there are
/// neither colors, an optimised build nor features to be asked for.  It uses the shared binaries
/// exactly where it is to.
pub proof fn commands_run_on_the_manifest(
    cmd: Seq<char>,
    manifest: Seq<char>,
    use_bincache: bool,
    meta: PackageMetadataView,
    color: bool,
    cache_dir: Seq<char>,
)
    ensures
        ({
            let c = cargo::cargo_command(cmd, manifest, use_bincache, meta, color, cache_dir);
            &&& c.args.len() >= 3
            &&& c.args[0] == cmd
            &&& c.args[1] == "--manifest-path"@
            &&& c.args[2] == manifest
            &&& !color && meta.debug && meta.features is None ==> c.args.len() == 3
            &&& use_bincache ==> c.target_dir == Some(paths::path_join(cache_dir, "bin"@))
            &&& !use_bincache ==> c.target_dir is None
        }),
{
}

/// Asking for colors adds just that behind the manifest, features are added at the end, and a build
/// that is not for debugging is optimised, unless it is for benchmarks, which always are.
pub proof fn commands_ask_for_what_is_wanted(
    cmd: Seq<char>,
    manifest: Seq<char>,
    use_bincache: bool,
    meta: PackageMetadataView,
    color: bool,
    cache_dir: Seq<char>,
    features: Seq<char>,
)
    ensures
        ({
            let with_color = cargo::cargo_command(
                cmd,
                manifest,
                use_bincache,
                meta,
                true,
                cache_dir,
            ).args;
            let without = cargo::cargo_command(
                cmd,
                manifest,
                use_bincache,
                meta,
                false,
                cache_dir,
            ).args;
            with_color == without.take(3) + seq!["--color"@, "always"@] + without.skip(3)
        }),
        ({
            let some = PackageMetadataView { features: Some(features), ..meta };
            let none = PackageMetadataView { features: None, ..meta };
            cargo::cargo_command(cmd, manifest, use_bincache, some, color, cache_dir).args
                == cargo::cargo_command(cmd, manifest, use_bincache, none, color, cache_dir).args
                + seq!["--features"@, features]
        }),
        ({
            let fast = PackageMetadataView { debug: false, features: None, ..meta };
            let slow = PackageMetadataView { debug: true, features: None, ..meta };
            let a = cargo::cargo_command(cmd, manifest, use_bincache, fast, color, cache_dir).args;
            let b = cargo::cargo_command(cmd, manifest, use_bincache, slow, color, cache_dir).args;
            &&& cmd != "bench"@ ==> a == b.push("--release"@)
            &&& cmd == "bench"@ ==> a == b
        }),
{
    let with_color = cargo::cargo_args(cmd, manifest, true, meta);
    let without = cargo::cargo_args(cmd, manifest, false, meta);
    assert(with_color =~= without.take(3) + seq!["--color"@, "always"@] + without.skip(3));
    let some = PackageMetadataView { features: Some(features), ..meta };
    let none = PackageMetadataView { features: None, ..meta };
    assert(cargo::cargo_args(cmd, manifest, color, some) =~= cargo::cargo_args(
        cmd,
        manifest,
        color,
        none,
    ) + seq!["--features"@, features]);
    let fast = PackageMetadataView { debug: false, features: None, ..meta };
    let slow = PackageMetadataView { debug: true, features: None, ..meta };
    let a = cargo::cargo_args(cmd, manifest, color, fast);
    let b = cargo::cargo_args(cmd, manifest, color, slow);
    if cmd == "bench"@ {
        assert(a =~= b);
    } else {
        assert(a =~= b.push("--release"@));
    }
}

/// Only what the metadata says of features and of the debug mode matters to a Cargo command.
pub proof fn commands_look_at_mode_and_features(
    cmd: Seq<char>,
    manifest: Seq<char>,
    use_bincache: bool,
    meta: PackageMetadataView,
    other: PackageMetadataView,
    color: bool,
    cache_dir: Seq<char>,
)
    requires
        meta.debug == other.debug,
        meta.features == other.features,
    ensures
        cargo::cargo_command(cmd, manifest, use_bincache, meta, color, cache_dir)
            == cargo::cargo_command(cmd, manifest, use_bincache, other, color, cache_dir),
{
}

/// What an action tells Cargo to do is done to the manifest in its package, by what it has decided
/// on; the command that asks for the target file is the build with its messages made readable.
pub proof fn actions_run_on_their_package(
    action: InputActionView,
    cmd: Seq<char>,
    color: bool,
    cache_dir: Seq<char>,
)
    ensures
        action.manifest_path() == paths::path_join(action.pkg_path, "Cargo.toml"@),
        action.cargo(cmd, color, cache_dir) == cargo::cargo_command(
            cmd,
            paths::path_join(action.pkg_path, "Cargo.toml"@),
            action.use_bincache,
            action.metadata,
            color,
            cache_dir,
        ),
        ({
            let asked = cargo::target_command(
                action.manifest_path(),
                action.use_bincache,
                action.metadata,
                color,
                cache_dir,
            );
            let build = action.cargo("build"@, color, cache_dir);
            &&& asked.target_dir == build.target_dir
            &&& asked.args == build.args + seq!["--message-format=json"@]
        }),
{
    let build = action.cargo("build"@, color, cache_dir);
    assert(build.args.push("--message-format=json"@) =~= build.args
        + seq!["--message-format=json"@]);
}

/// A build went well exactly where it ended with the status zero.  Otherwise the error tells the
/// status, if there is one, and does not blame the user.
pub proof fn builds_go_well_or_not(status: Option<i32>)
    ensures
        cargo::build_result(status) is Ok <==> status == Some(0i32),
        cargo::build_result(status) matches Err(e) ==> {
            &&& e.blame == Blame::Internal
            &&& status is None ==> e.message == "cargo failed"@
            &&& status matches Some(code) ==> e.message == "cargo failed with status "@
                + text::signed_decimal(code as int)
        },
        cargo::no_target(status).blame == Blame::Internal,
        status is None ==> cargo::no_target(status).message
            == "could not determine target filename: cargo exited abnormally"@,
        status matches Some(code) ==> cargo::no_target(status).message
            == "could not determine target filename: cargo exited with status "@
            + text::signed_decimal(code as int),
{
}

/// A message that reports an artifact of the package gives the first file that it names, however
/// many it names; every other message gives none, and so does a line that is no message.
pub proof fn artifacts_name_the_target(message: BuildMessageView, package_name: Seq<char>)
    ensures
        message.reason == "compiler-artifact"@ && message.target_name == package_name
            && message.filenames.len() > 0 ==> cargo::target_in_line(Some(message), package_name)
            == Some(message.filenames.first()),
        message.reason != "compiler-artifact"@ || message.target_name != package_name
            ==> cargo::target_in_line(Some(message), package_name) is None,
        cargo::target_in_line(None, package_name) is None,
        cargo::reports_target(message, package_name) <==> message.reason == "compiler-artifact"@
            && message.target_name == package_name,
{
}

/// More files behind the first make no difference to what a message gives.
pub proof fn further_files_do_not_matter(
    message: BuildMessageView,
    more: Seq<Seq<char>>,
    package_name: Seq<char>,
)
    requires
        message.filenames.len() > 0,
    ensures
        cargo::target_in_line(Some(message), package_name) == cargo::target_in_line(
            Some(BuildMessageView { filenames: message.filenames + more, ..message }),
            package_name,
        ),
{
}

} // verus!

//! How a package is generated and compiled, and what follows when that fails.
use vstd::prelude::*;
use vstd::string::*;
use vstd::utf8::*;
use crate::action::{self, InputActionView};
use crate::args::ArgsView;
use crate::build_kind::BuildKind;
use crate::digest;
use crate::error::{Blame, MainErrorView};
use crate::generate::{self, NextView, StepView};
use crate::input::InputView;
use crate::metadata::PackageMetadataView;
use crate::paths;

verus! {

/// Whether something is written before anything is built.
pub open spec fn written_before_building(
    steps: Seq<StepView>,
    path: Seq<char>,
    content: Seq<char>,
) -> bool {
    exists|k: int|
        0 <= k < steps.len() && #[trigger] steps[k] == (StepView::WriteFile { path, content })
            && forall|b: int| 0 <= b < steps.len() && #[trigger] steps[b] is Build ==> k < b
}

/// A source that is new, or has another hash than the one that was recorded, is written into the
/// package before that is built, and so is a manifest.
pub proof fn changes_are_written_before_the_build(
    input: InputView,
    action: InputActionView,
    color: bool,
    cache_dir: Seq<char>,
)
    ensures
        ({
            let steps = generate::all_steps(input, action, color, cache_dir);
            let old = action.old_metadata;
            &&& old is None || old->0.script_hash != digest::sha1_hex(action.script)
                ==> written_before_building(
                steps,
                paths::path_join(action.pkg_path, input.safe_name() + ".rs"@),
                action.script,
            )
            &&& old is None || old->0.manifest_hash != digest::sha1_hex(action.manifest)
                ==> written_before_building(
                steps,
                paths::path_join(action.pkg_path, "Cargo.toml"@),
                action.manifest,
            )
        }),
{
    let steps = generate::all_steps(input, action, color, cache_dir);
    let old = action.old_metadata;
    let mani = old is None || old->0.manifest_hash != digest::sha1_hex(action.manifest);
    let source = old is None || old->0.script_hash != digest::sha1_hex(action.script);
    steps_come_in_order(input, action, color, cache_dir);
    builds_come_after_files(input, action, color, cache_dir);
    if mani {
        assert(steps[1] == (StepView::WriteFile {
            path: paths::path_join(action.pkg_path, "Cargo.toml"@),
            content: action.manifest,
        }));
    }
    if source {
        let k: int = if mani {
            2
        } else {
            1
        };
        assert(steps[k] == (StepView::WriteFile {
            path: paths::path_join(action.pkg_path, input.safe_name() + ".rs"@),
            content: action.script,
        }));
    }
}

/// A regular script that was edited since its metadata was recorded is compiled when it is run again,
/// from its new source, whether or not that is forced, and whatever else was found; and its new hash
/// is what is recorded.
pub proof fn edited_scripts_are_built_anew(
    input: InputView,
    deps: Seq<(Seq<char>, Seq<char>)>,
    prelude: Seq<Seq<char>>,
    args: ArgsView,
    manifest: Seq<char>,
    script: Seq<char>,
    cache_dir: Seq<char>,
    color: bool,
    cached: PackageMetadataView,
    exe_exists: bool,
    found: Option<Seq<char>>,
)
    requires
        args.build_kind == BuildKind::Normal,
        !args.gen_pkg_only,
        cached.script_hash != digest::sha1_hex(script),
    ensures
        ({
            let a = action::settled(
                action::first_action(input, deps, prelude, args, manifest, script, cache_dir),
                false,
                Some(cached),
                exe_exists,
                found,
            );
            let steps = generate::all_steps(input, a, color, cache_dir);
            &&& a.compile
            &&& written_before_building(
                steps,
                paths::path_join(a.pkg_path, input.safe_name() + ".rs"@),
                script,
            )
            &&& exists|b: int| 0 <= b < steps.len() && #[trigger] steps[b] is Build
            &&& steps.last() matches StepView::SaveMetadata { metadata, .. } && metadata.script_hash
                == digest::sha1_hex(script)
        }),
{
    let a = action::settled(
        action::first_action(input, deps, prelude, args, manifest, script, cache_dir),
        false,
        Some(cached),
        exe_exists,
        found,
    );
    let steps = generate::all_steps(input, a, color, cache_dir);
    changes_are_written_before_the_build(input, a, color, cache_dir);
    steps_come_in_order(input, a, color, cache_dir);
    let c: int = if cached.manifest_hash != digest::sha1_hex(manifest) {
        3
    } else {
        2
    };
    assert(steps[c + 1] is Build);
}

/// What is built is built after the files are written.
proof fn builds_come_after_files(
    input: InputView,
    action: InputActionView,
    color: bool,
    cache_dir: Seq<char>,
)
    ensures
        forall|b: int|
            0 <= b < generate::all_steps(input, action, color, cache_dir).len()
                && #[trigger] generate::all_steps(input, action, color, cache_dir)[b] is Build
                ==> b >= generate::file_steps(input, action).len(),
{
    let steps = generate::all_steps(input, action, color, cache_dir);
    let files = generate::file_steps(input, action);
    assert forall|b: int| 0 <= b < files.len() implies !(#[trigger] steps[b] is Build) by {
        assert(steps[b] == files[b]);
    }
}

/// The steps, one by one.  The directory comes first.  Then come the manifest, unless it has the
/// recorded hash, and the source, unless it has the recorded hash and no compile is forced.  Where a
/// compile is due, the note of the executable is blanked, the package is built, the executable is
/// looked up and noted, and, with shared binaries, tied to the metadata that was decided on.  Last
/// comes the metadata, with the hashes of what was written.  There is nothing else.
pub proof fn steps_come_in_order(
    input: InputView,
    action: InputActionView,
    color: bool,
    cache_dir: Seq<char>,
)
    ensures
        ({
            let steps = generate::all_steps(input, action, color, cache_dir);
            let old = action.old_metadata;
            let mani = old is None || old->0.manifest_hash != digest::sha1_hex(action.manifest);
            let source = old is None || old->0.script_hash != digest::sha1_hex(action.script)
                || action.compile && action.force_compile;
            let s: int = if mani {
                2
            } else {
                1
            };
            let c: int = if source {
                s + 1
            } else {
                s
            };
            let e: int = if !action.compile {
                c
            } else if action.use_bincache {
                c + 4
            } else {
                c + 3
            };
            let build = action.cargo("build"@, color, cache_dir);
            let note = paths::path_join(action.pkg_path, "target.exe_path"@);
            &&& steps.len() == if action.emit_metadata {
                e + 1
            } else {
                e
            }
            &&& steps[0] == (StepView::CreateDir { path: action.pkg_path })
            &&& mani ==> steps[1] == (StepView::WriteFile {
                path: paths::path_join(action.pkg_path, "Cargo.toml"@),
                content: action.manifest,
            })
            &&& source ==> steps[s] == (StepView::WriteFile {
                path: paths::path_join(action.pkg_path, input.safe_name() + ".rs"@),
                content: action.script,
            })
            &&& action.compile ==> {
                &&& steps[c] == (StepView::WriteFile { path: note, content: Seq::empty() })
                &&& steps[c + 1] == (StepView::Build { command: build })
                &&& steps[c + 2] matches StepView::FindTarget {
                    command,
                    package_name,
                    cache_path,
                } && command.args == build.args + seq!["--message-format=json"@]
                    && command.target_dir == build.target_dir && package_name
                    == input.package_name() && cache_path == note
            }
            &&& action.compile && action.use_bincache ==> steps[c + 3] == (StepView::WriteFile {
                path: paths::path_join(action.pkg_path, "target.meta-hash"@),
                content: digest::sha1_hex(action.metadata.written()),
            })
            &&& action.emit_metadata ==> steps[e] == (StepView::SaveMetadata {
                path: paths::path_join(action.pkg_path, "metadata.json"@),
                metadata: PackageMetadataView {
                    manifest_hash: if mani {
                        digest::sha1_hex(action.manifest)
                    } else {
                        action.metadata.manifest_hash
                    },
                    script_hash: if source {
                        digest::sha1_hex(action.script)
                    } else {
                        action.metadata.script_hash
                    },
                    ..action.metadata
                },
            })
        }),
{
    let build = action.cargo("build"@, color, cache_dir);
    assert(build.args.push("--message-format=json"@) =~= build.args
        + seq!["--message-format=json"@]);
}

/// A package is generated exactly where what has to be hashed for it is short enough: its manifest,
/// its source, and, where its executable is tied to the metadata, that.
pub proof fn when_packages_are_generated(
    input: InputView,
    action: InputActionView,
    color: bool,
    cache_dir: Seq<char>,
)
    ensures
        ({
            let plan = generate::generation(input, action, color, cache_dir);
            let short = encode_utf8(action.manifest).len() <= 0x1fff_ffff_ffff_ffff && encode_utf8(
                action.script,
            ).len() <= 0x1fff_ffff_ffff_ffff && (action.compile && action.use_bincache
                ==> encode_utf8(action.metadata.written()).len() <= 0x1fff_ffff_ffff_ffff);
            &&& short ==> plan == Ok::<Seq<StepView>, MainErrorView>(
                generate::all_steps(input, action, color, cache_dir),
            )
            &&& !short ==> (plan matches Err(e) && e.blame == Blame::Internal && e.message
                == "text is too long to hash"@)
        }),
{
}

/// As long as everything succeeds, each step is followed by the next one, and the last by the end,
/// which is a good one unless an error is pending.
pub proof fn successes_lead_on(
    action: InputActionView,
    steps: Seq<StepView>,
    i: int,
    pending: Option<MainErrorView>,
)
    requires
        0 <= i < steps.len(),
    ensures
        i < steps.len() - 1 ==> generate::after_step(action, steps, i, pending, Ok(())) == (
        NextView::Continue { index: i + 1, pending }),
        i == steps.len() - 1 && pending is None ==> generate::after_step(
            action,
            steps,
            i,
            pending,
            Ok(()),
        ) == NextView::Done,
        i == steps.len() - 1 ==> (pending matches Some(error) ==> generate::after_step(
            action,
            steps,
            i,
            pending,
            Ok(()),
        ) == (NextView::Abort { remove: None, error })),
{
}

/// A failure of anything but the build is the end, with its own error.  Once the directory is there
/// and is in the cache, it is removed; otherwise nothing is.
pub proof fn failures_end_it(
    action: InputActionView,
    steps: Seq<StepView>,
    i: int,
    pending: Option<MainErrorView>,
    error: MainErrorView,
)
    requires
        0 <= i < steps.len(),
        !(steps[i] is Build),
    ensures
        generate::after_step(action, steps, i, pending, Err(error)) matches NextView::Abort {
            remove,
            error: e,
        } && e == error && (if i > 0 && action.using_cache {
            remove == Some(action.pkg_path)
        } else {
            remove is None
        }),
{
}

/// After a failed build, only what was generated is still recorded, and the error waits until that
/// is done.  Where nothing is to be recorded, the error is the end.  Nothing is removed either way.
pub proof fn failed_builds_are_recorded(
    action: InputActionView,
    steps: Seq<StepView>,
    i: int,
    pending: Option<MainErrorView>,
    error: MainErrorView,
)
    requires
        0 <= i < steps.len(),
        steps[i] is Build,
    ensures
        i < steps.len() - 1 && steps[steps.len() - 1] is SaveMetadata ==> generate::after_step(
            action,
            steps,
            i,
            pending,
            Err(error),
        ) == (NextView::Continue { index: steps.len() - 1, pending: Some(error) }),
        i == steps.len() - 1 || !(steps[steps.len() - 1] is SaveMetadata) ==> generate::after_step(
            action,
            steps,
            i,
            pending,
            Err(error),
        ) == (NextView::Abort { remove: None, error }),
{
}

} // verus!

//! The Cargo commands that are run on a generated package.
use vstd::prelude::*;
use vstd::string::*;
use crate::action::{InputAction, InputActionView};
use crate::error::{self, MainError, MainErrorView};
use crate::metadata::{PackageMetadata, PackageMetadataView};
use crate::paths;
use crate::text;

verus! {

/// A Cargo command.
#[derive(Debug)]
pub struct CargoCommand {
    /// The arguments, the subcommand first.
    pub args: Vec<String>,
    /// What the environment variable `CARGO_TARGET_DIR` is set to, if it is.
    pub target_dir: Option<String>,
}

/// What a `CargoCommand` says.
#[verifier::ext_equal]
pub struct CargoCommandView {
    pub args: Seq<Seq<char>>,
    pub target_dir: Option<Seq<char>>,
}

impl View for CargoCommand {
    type V = CargoCommandView;

    open spec fn view(&self) -> CargoCommandView {
        CargoCommandView {
            args: text::texts(self.args@),
            target_dir: text::opt_text(self.target_dir),
        }
    }
}

/// The arguments of a Cargo command that runs on the package with the given manifest.
pub open spec fn cargo_args(
    cmd_name: Seq<char>,
    manifest: Seq<char>,
    color: bool,
    meta: PackageMetadataView,
) -> Seq<Seq<char>> {
    seq![cmd_name, "--manifest-path"@, manifest] + (if color {
        seq!["--color"@, "always"@]
    } else {
        Seq::empty()
    }) + (if !meta.debug && cmd_name != "bench"@ {
        seq!["--release"@]
    } else {
        Seq::empty()
    }) + (match meta.features {
        Some(features) => seq!["--features"@, features],
        None => Seq::empty(),
    })
}

/// A Cargo command that runs on the package with the given manifest.
pub open spec fn cargo_command(
    cmd_name: Seq<char>,
    manifest: Seq<char>,
    use_bincache: bool,
    meta: PackageMetadataView,
    color: bool,
    cache_dir: Seq<char>,
) -> CargoCommandView {
    CargoCommandView {
        args: cargo_args(cmd_name, manifest, color, meta),
        target_dir: if use_bincache {
            Some(paths::binary_cache(cache_dir))
        } else {
            None
        },
    }
}

/// Adds an argument.
fn arg(args: &mut Vec<String>, value: &str)
    ensures
        text::texts(final(args)@) == text::texts(old(args)@).push(value@),
{
    args.push(value.to_owned());
    assert(text::texts(args@) =~= text::texts(old(args)@).push(value@));
}

/// Constructs a Cargo command that runs on the script package.  `color` says whether Cargo has
/// to be told to use colors, and `cache_dir` is the directory of the whole cache.
pub fn cargo(
    cmd_name: &str,
    manifest: &str,
    use_bincache: bool,
    meta: &PackageMetadata,
    color: bool,
    cache_dir: &str,
) -> (r: CargoCommand)
    ensures
        r@ == cargo_command(cmd_name@, manifest@, use_bincache, meta@, color, cache_dir@),
{
    let mut args: Vec<String> = Vec::new();
    assert(text::texts(args@) =~= Seq::empty());
    arg(&mut args, cmd_name);
    arg(&mut args, "--manifest-path");
    arg(&mut args, manifest);
    if color {
        arg(&mut args, "--color");
        arg(&mut args, "always");
    }
    let target_dir: Option<String> = if use_bincache {
        Some(paths::binary_cache_path(cache_dir))
    } else {
        None
    };
    // Block `--release` on `bench`.
    if !meta.debug && !text::same_text(cmd_name, "bench") {
        arg(&mut args, "--release");
    }
    match &meta.features {
        Some(features) => {
            arg(&mut args, "--features");
            arg(&mut args, features.as_str());
        },
        None => {},
    }
    assert(text::texts(args@) =~= cargo_args(cmd_name@, manifest@, color, meta@));
    CargoCommand { args, target_dir }
}

impl InputActionView {
    /// A Cargo command that runs on the action's package.
    pub open spec fn cargo(
        self,
        cmd: Seq<char>,
        color: bool,
        cache_dir: Seq<char>,
    ) -> CargoCommandView {
        cargo_command(
            cmd,
            self.manifest_path(),
            self.use_bincache,
            self.metadata,
            color,
            cache_dir,
        )
    }
}

impl InputAction {
    /// Constructs a Cargo command that runs on the action's package.
    pub fn cargo(&self, cmd: &str, color: bool, cache_dir: &str) -> (r: CargoCommand)
        ensures
            r@ == self@.cargo(cmd@, color, cache_dir@),
    {
        cargo(
            cmd,
            self.manifest_path().as_str(),
            self.use_bincache,
            &self.metadata,
            color,
            cache_dir,
        )
    }
}

/// How a build that ended with the given status went.
pub open spec fn build_result(status: Option<i32>) -> Result<(), MainErrorView> {
    match status {
        Some(st) => if st == 0 {
            Ok(())
        } else {
            Err(error::internal("cargo failed with status "@ + text::signed_decimal(st as int)))
        },
        None => Err(error::internal("cargo failed"@)),
    }
}

/// How a build went that ended with the given status: `None` where it was killed.
pub fn build_outcome(status: Option<i32>) -> (r: Result<(), MainError>)
    ensures
        error::unit_view(r) == build_result(status),
{
    match status {
        Some(st) => if st == 0 {
            Ok(())
        } else {
            let mut message: String = "cargo failed with status ".to_owned();
            let code: String = text::signed_decimal_text(st);
            message.append(code.as_str());
            Err(MainError::internal(message.as_str()))
        },
        None => Err(MainError::internal("cargo failed")),
    }
}

/// The command whose output names the package's target file.
pub open spec fn target_command(
    manifest: Seq<char>,
    use_bincache: bool,
    meta: PackageMetadataView,
    color: bool,
    cache_dir: Seq<char>,
) -> CargoCommandView {
    let build = cargo_command("build"@, manifest, use_bincache, meta, color, cache_dir);
    CargoCommandView { args: build.args.push("--message-format=json"@), ..build }
}

/// Constructs the command whose output names the package's target file.
pub fn cargo_target_command(
    manifest: &str,
    use_bincache: bool,
    meta: &PackageMetadata,
    color: bool,
    cache_dir: &str,
) -> (r: CargoCommand)
    ensures
        r@ == target_command(manifest@, use_bincache, meta@, color, cache_dir@),
{
    let build: CargoCommand = cargo("build", manifest, use_bincache, meta, color, cache_dir);
    let mut args: Vec<String> = build.args;
    arg(&mut args, "--message-format=json");
    CargoCommand { args, target_dir: build.target_dir }
}

/// A line of what a build prints about itself.
#[derive(Debug)]
pub struct BuildMessage {
    pub reason: String,
    pub target_name: String,
    pub filenames: Vec<String>,
}

/// What a `BuildMessage` says.
pub struct BuildMessageView {
    pub reason: Seq<char>,
    pub target_name: Seq<char>,
    pub filenames: Seq<Seq<char>>,
}

impl View for BuildMessage {
    type V = BuildMessageView;

    open spec fn view(&self) -> BuildMessageView {
        BuildMessageView {
            reason: self.reason@,
            target_name: self.target_name@,
            filenames: text::texts(self.filenames@),
        }
    }
}

/// What a printed line says, if it says anything.
pub open spec fn opt_message(line: Option<BuildMessage>) -> Option<BuildMessageView> {
    match line {
        Some(m) => Some(m@),
        None => None,
    }
}

/// Whether a message reports that the package's target was built.
pub open spec fn reports_target(message: BuildMessageView, package_name: Seq<char>) -> bool {
    message.reason == "compiler-artifact"@ && message.target_name == package_name
}

/// Whether a message reports that the package's target was built.
pub fn is_target_report(message: &BuildMessage, package_name: &str) -> (r: bool)
    ensures
        r == reports_target(message@, package_name@),
{
    text::same_text(message.reason.as_str(), "compiler-artifact") && text::same_text(
        message.target_name.as_str(),
        package_name,
    )
}

/// The target file that a printed line names.
pub open spec fn target_in_line(
    line: Option<BuildMessageView>,
    package_name: Seq<char>,
) -> Option<Seq<char>> {
    match line {
        Some(m) => if reports_target(m, package_name) {
            Some(m.filenames[0])
        } else {
            None
        },
        None => None,
    }
}

/// Looks for the package's target file in a line of the output of the build: `None` for a line
/// that is no message.  Where it is found, the rest of the output does not matter.  A message
/// that reports the target has to name a file.
pub fn cargo_target_by_message(line: Option<BuildMessage>, package_name: &str) -> (r: Option<
    String,
>)
    requires
        line matches Some(m) ==> (reports_target(m@, package_name@) ==> m.filenames@.len() > 0),
    ensures
        text::opt_text(r) == target_in_line(opt_message(line), package_name@),
{
    match line {
        Some(message) => {
            if is_target_report(&message, package_name) {
                let mut filenames: Vec<String> = message.filenames;
                Some(filenames.swap_remove(0))
            } else {
                None
            }
        },
        None => None,
    }
}

/// The error for a build that did not name the package's target file.
pub open spec fn no_target(status: Option<i32>) -> MainErrorView {
    match status {
        Some(st) => error::internal(
            "could not determine target filename: cargo exited with status "@
                + text::signed_decimal(st as int),
        ),
        None => error::internal("could not determine target filename: cargo exited abnormally"@),
    }
}

/// The error for a build that ended with the given status, `None` where it was killed, and did
/// not name the package's target file.
pub fn no_target_error(status: Option<i32>) -> (r: MainError)
    ensures
        r@ == no_target(status),
{
    match status {
        Some(st) => {
            let mut message: String =
                "could not determine target filename: cargo exited with status ".to_owned();
            let code: String = text::signed_decimal_text(st);
            message.append(code.as_str());
            MainError::internal(message.as_str())
        },
        None => MainError::internal("could not determine target filename: cargo exited abnormally"),
    }
}

/// Benchmarks are never built with `--release`, which the command for them does not take: the
/// command is the same as for a debug build.
pub proof fn benchmarks_take_no_release(manifest: Seq<char>, color: bool, meta: PackageMetadataView)
    ensures
        cargo_args("bench"@, manifest, color, meta) == cargo_args(
            "bench"@,
            manifest,
            color,
            PackageMetadataView { debug: true, ..meta },
        ),
{
}

} // verus!

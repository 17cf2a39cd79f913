//! What is done with an input.
use vstd::prelude::*;
use vstd::string::*;
use crate::args::{Args, ArgsView};
use crate::build_kind::BuildKind;
use crate::digest;
use crate::error::{self, MainError};
use crate::input::{Input, InputView};
use crate::metadata::{self, PackageMetadata, PackageMetadataView};
use crate::paths;
use crate::text;

verus! {

/// This represents what to do with the input provided by the user.
#[derive(Debug)]
pub struct InputAction {
    /// Compile the input into a fresh executable?
    pub compile: bool,
    /// Force Cargo to do a recompile, even if it thinks it doesn't have to.
    ///
    /// `compile` must be `true` for this to have any effect.
    pub force_compile: bool,
    /// Emit a metadata file?
    pub emit_metadata: bool,
    /// Execute the compiled binary?
    pub execute: bool,
    /// Directory where the package should live.
    pub pkg_path: String,
    /// Is the package directory in the cache?
    pub using_cache: bool,
    /// Use shared binary cache?
    pub use_bincache: bool,
    /// The package metadata structure for the current invocation.
    pub metadata: PackageMetadata,
    /// The package metadata structure for the *previous* invocation, if it exists.
    pub old_metadata: Option<PackageMetadata>,
    /// The package manifest contents.
    pub manifest: String,
    /// The script source.
    pub script: String,
    /// Did the user ask to run tests or benchmarks?
    pub build_kind: BuildKind,
}

/// What an `InputAction` says.
#[verifier::ext_equal]
pub struct InputActionView {
    pub compile: bool,
    pub force_compile: bool,
    pub emit_metadata: bool,
    pub execute: bool,
    pub pkg_path: Seq<char>,
    pub using_cache: bool,
    pub use_bincache: bool,
    pub metadata: PackageMetadataView,
    pub old_metadata: Option<PackageMetadataView>,
    pub manifest: Seq<char>,
    pub script: Seq<char>,
    pub build_kind: BuildKind,
}

/// What optional metadata says.
pub open spec fn opt_metadata(m: Option<PackageMetadata>) -> Option<PackageMetadataView> {
    match m {
        Some(m) => Some(m@),
        None => None,
    }
}

impl View for InputAction {
    type V = InputActionView;

    open spec fn view(&self) -> InputActionView {
        InputActionView {
            compile: self.compile,
            force_compile: self.force_compile,
            emit_metadata: self.emit_metadata,
            execute: self.execute,
            pkg_path: self.pkg_path@,
            using_cache: self.using_cache,
            use_bincache: self.use_bincache,
            metadata: self.metadata@,
            old_metadata: opt_metadata(self.old_metadata),
            manifest: self.manifest@,
            script: self.script@,
            build_kind: self.build_kind,
        }
    }
}

impl InputActionView {
    /// The package's manifest file.
    pub open spec fn manifest_path(self) -> Seq<char> {
        paths::path_join(self.pkg_path, "Cargo.toml"@)
    }
}

impl InputAction {
    /// The package's manifest file.
    pub fn manifest_path(&self) -> (r: String)
        ensures
            r@ == self@.manifest_path(),
    {
        paths::join(self.pkg_path.as_str(), "Cargo.toml")
    }
}

/// How far the question of what to do with an input has got.
#[derive(Debug)]
pub enum Decision {
    /// It is settled.
    Act(InputAction),
    /// The metadata of the previous invocation has to be read.
    NeedMetadata(InputAction),
    /// Whether the executable is there has to be looked up.
    NeedExe(InputAction),
    /// What the `meta-hash` file says has to be read.
    NeedMetaHash(InputAction),
}

/// What a `Decision` says.
pub enum DecisionView {
    Act(InputActionView),
    NeedMetadata(InputActionView),
    NeedExe(InputActionView),
    NeedMetaHash(InputActionView),
}

impl View for Decision {
    type V = DecisionView;

    open spec fn view(&self) -> DecisionView {
        match *self {
            Decision::Act(a) => DecisionView::Act(a@),
            Decision::NeedMetadata(a) => DecisionView::NeedMetadata(a@),
            Decision::NeedExe(a) => DecisionView::NeedExe(a@),
            Decision::NeedMetaHash(a) => DecisionView::NeedMetaHash(a@),
        }
    }
}

/// Whether the build is a debug build.
pub open spec fn debug_flag(args: ArgsView) -> bool {
    match args.build_kind {
        BuildKind::Normal => args.debug,
        BuildKind::Test => true,
        BuildKind::Bench => false,
    }
}

/// Whether a recompile is forced.
pub open spec fn force_flag(args: ArgsView) -> bool {
    args.build_kind == BuildKind::Normal && args.force
}

/// Whether what is built is not to be run.
pub open spec fn build_only_flag(args: ArgsView) -> bool {
    args.build_kind == BuildKind::Normal && args.build_only
}

/// The metadata of the package for an input.
pub open spec fn input_metadata(
    input: InputView,
    deps: Seq<(Seq<char>, Seq<char>)>,
    prelude: Seq<Seq<char>>,
    args: ArgsView,
    manifest: Seq<char>,
    script: Seq<char>,
) -> PackageMetadataView {
    PackageMetadataView {
        path: input.path(),
        modified: input.modified(),
        template: input.template(),
        debug: debug_flag(args),
        deps,
        prelude,
        features: args.features,
        manifest_hash: digest::sha1_hex(manifest),
        script_hash: digest::sha1_hex(script),
    }
}

/// The directory of the package for an input: the one that was asked for, or one in the cache.
pub open spec fn input_pkg_path(
    input: InputView,
    deps: Seq<(Seq<char>, Seq<char>)>,
    args: ArgsView,
    cache_dir: Seq<char>,
) -> Seq<char> {
    match args.pkg_path {
        Some(path) => path,
        None => paths::path_join(paths::script_cache(cache_dir), input.id(deps)),
    }
}

/// What is to be done with an input, as long as nothing is known of earlier invocations.
pub open spec fn first_action(
    input: InputView,
    deps: Seq<(Seq<char>, Seq<char>)>,
    prelude: Seq<Seq<char>>,
    args: ArgsView,
    manifest: Seq<char>,
    script: Seq<char>,
    cache_dir: Seq<char>,
) -> InputActionView {
    InputActionView {
        compile: force_flag(args),
        force_compile: force_flag(args),
        emit_metadata: true,
        execute: !build_only_flag(args),
        pkg_path: input_pkg_path(input, deps, args, cache_dir),
        using_cache: args.pkg_path is None,
        use_bincache: match args.use_bincache {
            Some(b) => b,
            None => args.pkg_path is None,
        },
        metadata: input_metadata(input, deps, prelude, args, manifest, script),
        old_metadata: None,
        manifest,
        script,
        build_kind: args.build_kind,
    }
}

/// Whether everything that is hashed for an input is short enough.
pub open spec fn all_digestible(
    input: InputView,
    deps: Seq<(Seq<char>, Seq<char>)>,
    args: ArgsView,
    manifest: Seq<char>,
    script: Seq<char>,
) -> bool {
    &&& args.pkg_path is None ==> digest::digestible(input.id_text(deps))
    &&& digest::digestible(manifest)
    &&& digest::digestible(script)
}

/// How far the flags alone settle what to do.
pub open spec fn after_flags(action: InputActionView, gen_pkg_only: bool) -> DecisionView {
    if gen_pkg_only {
        DecisionView::Act(InputActionView { compile: false, execute: false, ..action })
    } else if action.build_kind != BuildKind::Normal {
        DecisionView::Act(InputActionView { compile: false, force_compile: false, ..action })
    } else {
        DecisionView::NeedMetadata(action)
    }
}

/// How far the metadata of the previous invocation settles what to do.
pub open spec fn after_metadata(
    action: InputActionView,
    cached: Option<PackageMetadataView>,
) -> DecisionView {
    match cached {
        None => DecisionView::Act(InputActionView { compile: true, ..action }),
        Some(m) => if m == action.metadata {
            DecisionView::NeedExe(InputActionView { old_metadata: cached, ..action })
        } else {
            DecisionView::Act(InputActionView { old_metadata: cached, compile: true, ..action })
        },
    }
}

/// How far it settles what to do whether the executable is there.
pub open spec fn after_exe(action: InputActionView, exe_exists: bool) -> DecisionView {
    if !exe_exists {
        DecisionView::Act(InputActionView { compile: true, ..action })
    } else if action.use_bincache {
        DecisionView::NeedMetaHash(action)
    } else {
        DecisionView::Act(action)
    }
}

/// What is done in view of what the `meta-hash` file says, if it is there.
pub open spec fn after_meta_hash(
    action: InputActionView,
    found: Option<Seq<char>>,
) -> InputActionView {
    if found == Some(action.metadata.hash()) {
        action
    } else {
        InputActionView { compile: true, force_compile: true, ..action }
    }
}

/// For the given input, this constructs the package metadata and says how far what should be
/// done is settled by that.  `mani_str` and `script_str` are the manifest and the source that
/// the input is split into, and `cache_dir` is the directory of the whole cache.
pub fn decide_action_for(
    input: &Input,
    deps: Vec<(String, String)>,
    prelude: Vec<String>,
    args: &Args,
    mani_str: String,
    script_str: String,
    cache_dir: &str,
) -> (r: Result<Decision, MainError>)
    ensures
        error::result_view(r) == if all_digestible(
            input@,
            text::text_pairs(deps@),
            args@,
            mani_str@,
            script_str@,
        ) {
            Ok(
                after_flags(
                    first_action(
                        input@,
                        text::text_pairs(deps@),
                        text::texts(prelude@),
                        args@,
                        mani_str@,
                        script_str@,
                        cache_dir@,
                    ),
                    args@.gen_pkg_only,
                ),
            )
        } else {
            Err(digest::too_long())
        },
{
    let ghost said = first_action(
        input@,
        text::text_pairs(deps@),
        text::texts(prelude@),
        args@,
        mani_str@,
        script_str@,
        cache_dir@,
    );
    let (pkg_path, using_cache): (String, bool) = match &args.pkg_path {
        Some(p) => (p.clone(), false),
        None => {
            let cache_path: String = paths::script_cache_path(cache_dir);
            let id: String = match input.compute_id(&deps) {
                Ok(id) => id,
                Err(e) => return Err(e),
            };
            (paths::join(cache_path.as_str(), id.as_str()), true)
        },
    };

    // Forcibly override some flags based on build kind.
    let (debug, force, build_only): (bool, bool, bool) = match args.build_kind {
        BuildKind::Normal => (args.debug, args.force, args.build_only),
        BuildKind::Test => (true, false, false),
        BuildKind::Bench => (false, false, false),
    };

    // Construct input metadata.
    let (path, modified, template): (Option<String>, Option<u128>, Option<String>) = match *input {
        Input::File(_, path, _, mtime) => (Some(path.to_owned()), Some(mtime), None),
        Input::Expr(_, Some(template)) => (None, None, Some(template.to_owned())),
        Input::Expr(_, None) => (None, None, None),
        Input::Loop(..) => (None, None, None),
    };
    let manifest_hash: String = match digest::try_hash_str(mani_str.as_str()) {
        Ok(h) => h,
        Err(e) => return Err(e),
    };
    let script_hash: String = match digest::try_hash_str(script_str.as_str()) {
        Ok(h) => h,
        Err(e) => return Err(e),
    };
    let metadata: PackageMetadata = PackageMetadata {
        path,
        modified,
        template,
        debug,
        deps,
        prelude,
        features: metadata::copy_opt_text(&args.features),
        manifest_hash,
        script_hash,
    };
    let action: InputAction = InputAction {
        compile: force,
        force_compile: force,
        emit_metadata: true,
        execute: !build_only,
        pkg_path,
        using_cache,
        use_bincache: args.use_bincache.unwrap_or(using_cache),
        metadata,
        old_metadata: None,
        manifest: mani_str,
        script: script_str,
        build_kind: args.build_kind,
    };
    assert(action@ =~= said);

    // If we were told to only generate the package, we need to stop *now*
    if args.gen_pkg_only {
        return Ok(Decision::Act(InputAction { compile: false, execute: false, ..action }));
    }
    // If we're not doing a regular build, stop.

    match action.build_kind {
        BuildKind::Normal => Ok(Decision::NeedMetadata(action)),
        BuildKind::Test | BuildKind::Bench => Ok(
            Decision::Act(InputAction { compile: false, force_compile: false, ..action }),
        ),
    }
}

/// Goes on with a decision that needed the metadata of the previous invocation: `None` where
/// it could not be loaded.
pub fn decide_on_metadata(action: InputAction, cached: Option<PackageMetadata>) -> (r: Decision)
    ensures
        r@ == after_metadata(action@, opt_metadata(cached)),
{
    match cached {
        None => Decision::Act(InputAction { compile: true, ..action }),
        Some(cache_meta) => if cache_meta != action.metadata {
            Decision::Act(
                InputAction { old_metadata: Some(cache_meta), compile: true, ..action },
            )
        } else {
            Decision::NeedExe(InputAction { old_metadata: Some(cache_meta), ..action })
        },
    }
}

/// Goes on with a decision that needed to know whether the executable is there.
pub fn decide_on_exe(action: InputAction, exe_exists: bool) -> (r: Decision)
    ensures
        r@ == after_exe(action@, exe_exists),
{
    if !exe_exists {
        Decision::Act(InputAction { compile: true, ..action })
    } else if action.use_bincache {
        Decision::NeedMetaHash(action)
    } else {
        Decision::Act(action)
    }
}

/// Goes on with a decision that needed what the `meta-hash` file says, given the hash of the
/// metadata.
pub fn settle_meta_hash(action: InputAction, meta_hash: &str, found: &str) -> (r: InputAction)
    ensures
        r@ == if found@ == meta_hash@ {
            action@
        } else {
            (InputActionView { compile: true, force_compile: true, ..action@ })
        },
{
    if text::same_text(meta_hash, found) {
        action
    } else {
        InputAction { compile: true, force_compile: true, ..action }
    }
}

/// Goes on with a decision that needed what the `meta-hash` file says: `None` where there is no
/// such file.  This accounts for Cargo's target directory being a fixed, shared location.
pub fn decide_on_meta_hash(action: InputAction, found: Option<String>) -> (r: Result<
    InputAction,
    MainError,
>)
    ensures
        error::result_view(r) == match (text::opt_text(found), action@.metadata.try_hash()) {
            (Some(_), Err(e)) => Err(e),
            (f, _) => Ok(after_meta_hash(action@, f)),
        },
{
    match found {
        None => Ok(InputAction { compile: true, force_compile: true, ..action }),
        Some(exe_meta_hash) => match action.metadata.try_sha1_hash() {
            Ok(h) => Ok(settle_meta_hash(action, h.as_str(), exe_meta_hash.as_str())),
            Err(e) => Err(e),
        },
    }
}

/// Whether what is in the cache can be used as it is: the metadata of the previous invocation
/// is exactly that of this one, the executable is there, and, where the binary cache is used,
/// the executable is the one that was made from it.
pub open spec fn is_fresh(
    action: InputActionView,
    cached: Option<PackageMetadataView>,
    exe_exists: bool,
    found: Option<Seq<char>>,
) -> bool {
    &&& cached == Some(action.metadata)
    &&& exe_exists
    &&& action.use_bincache ==> found == Some(action.metadata.hash())
}

/// What a decision comes to, given everything that it may need.
pub open spec fn settled(
    action: InputActionView,
    gen_pkg_only: bool,
    cached: Option<PackageMetadataView>,
    exe_exists: bool,
    found: Option<Seq<char>>,
) -> InputActionView {
    match after_flags(action, gen_pkg_only) {
        DecisionView::NeedMetadata(a) => match after_metadata(a, cached) {
            DecisionView::NeedExe(b) => match after_exe(b, exe_exists) {
                DecisionView::NeedMetaHash(c) => after_meta_hash(c, found),
                DecisionView::Act(c) => c,
                _ => b,
            },
            DecisionView::Act(b) => b,
            _ => a,
        },
        DecisionView::Act(a) => a,
        _ => action,
    }
}

/// A regular script is compiled if and only if that is forced or what is in the cache cannot be
/// used as it is.
pub proof fn compiled_unless_fresh(
    action: InputActionView,
    cached: Option<PackageMetadataView>,
    exe_exists: bool,
    found: Option<Seq<char>>,
)
    requires
        action.build_kind == BuildKind::Normal,
    ensures
        settled(action, false, cached, exe_exists, found).compile <==> action.compile || !is_fresh(
            action,
            cached,
            exe_exists,
            found,
        ),
        is_fresh(action, cached, exe_exists, found) ==> settled(
            action,
            false,
            cached,
            exe_exists,
            found,
        ) == (InputActionView { old_metadata: cached, ..action }),
{
}

/// Where the metadata of the previous invocation cannot be loaded, as after the cache has been
/// cleared, a regular script is compiled, whether or not that is forced.
pub proof fn cleared_means_compiled(
    action: InputActionView,
    exe_exists: bool,
    found: Option<Seq<char>>,
)
    requires
        action.build_kind == BuildKind::Normal,
    ensures
        settled(action, false, None, exe_exists, found).compile,
{
}

/// Where only the package is to be generated, nothing is compiled or run, and where tests or
/// benchmarks are asked for, the compiling is left to the command that runs them.
pub proof fn not_compiled_here(
    action: InputActionView,
    gen_pkg_only: bool,
    cached: Option<PackageMetadataView>,
    exe_exists: bool,
    found: Option<Seq<char>>,
)
    requires
        gen_pkg_only || action.build_kind != BuildKind::Normal,
    ensures
        !settled(action, gen_pkg_only, cached, exe_exists, found).compile,
        gen_pkg_only ==> !settled(action, gen_pkg_only, cached, exe_exists, found).execute,
        !gen_pkg_only ==> settled(action, gen_pkg_only, cached, exe_exists, found).execute
            == action.execute,
{
}

/// A decision is about compiling and running alone: where the package is, what goes into it and
/// what is recorded of it are clear from the start.
pub proof fn decisions_keep_the_package(
    action: InputActionView,
    gen_pkg_only: bool,
    cached: Option<PackageMetadataView>,
    exe_exists: bool,
    found: Option<Seq<char>>,
)
    ensures
        settled(action, gen_pkg_only, cached, exe_exists, found) == (InputActionView {
            compile: settled(action, gen_pkg_only, cached, exe_exists, found).compile,
            force_compile: settled(action, gen_pkg_only, cached, exe_exists, found).force_compile,
            execute: settled(action, gen_pkg_only, cached, exe_exists, found).execute,
            old_metadata: settled(action, gen_pkg_only, cached, exe_exists, found).old_metadata,
            ..action
        }),
{
}

/// A package in a directory that the user gave is never taken to be in the cache, and all others
/// are; the binary cache is used for the latter unless the user says otherwise.
pub proof fn given_directories_are_not_cached(
    input: InputView,
    deps: Seq<(Seq<char>, Seq<char>)>,
    prelude: Seq<Seq<char>>,
    args: ArgsView,
    manifest: Seq<char>,
    script: Seq<char>,
    cache_dir: Seq<char>,
)
    ensures
        ({
            let action = first_action(input, deps, prelude, args, manifest, script, cache_dir);
            &&& args.pkg_path matches Some(path) ==> !action.using_cache && action.pkg_path == path
            &&& args.pkg_path is None ==> action.using_cache && action.pkg_path
                == paths::path_join(paths::script_cache(cache_dir), input.id(deps))
            &&& args.use_bincache is None ==> action.use_bincache == action.using_cache
        }),
{
}

/// A regular script that is not compiled is unchanged: where the metadata of an earlier
/// invocation was found, everything that the package is made from is as it was then, and its
/// manifest and its source have the hashes that they had.
pub proof fn not_compiled_means_unchanged(
    input: InputView,
    deps: Seq<(Seq<char>, Seq<char>)>,
    prelude: Seq<Seq<char>>,
    args: ArgsView,
    manifest: Seq<char>,
    script: Seq<char>,
    cache_dir: Seq<char>,
    input2: InputView,
    deps2: Seq<(Seq<char>, Seq<char>)>,
    prelude2: Seq<Seq<char>>,
    args2: ArgsView,
    manifest2: Seq<char>,
    script2: Seq<char>,
    exe_exists: bool,
    found: Option<Seq<char>>,
)
    requires
        args2.build_kind == BuildKind::Normal,
        !args2.gen_pkg_only,
        !settled(
            first_action(input2, deps2, prelude2, args2, manifest2, script2, cache_dir),
            false,
            Some(input_metadata(input, deps, prelude, args, manifest, script)),
            exe_exists,
            found,
        ).compile,
    ensures
        exe_exists,
        !args2.force,
        input2.path() == input.path(),
        deps2 == deps,
        prelude2 == prelude,
        args2.features == args.features,
        debug_flag(args2) == debug_flag(args),
        digest::sha1_hex(manifest2) == digest::sha1_hex(manifest),
        digest::sha1_hex(script2) == digest::sha1_hex(script),
        input2.modified() == input.modified(),
        input2.template() == input.template(),
{
}

} // verus!

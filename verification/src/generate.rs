//! Generating and compiling a package.
use vstd::prelude::*;
use vstd::string::*;
use crate::action::{self, InputAction, InputActionView};
use crate::args::ArgsView;
use crate::build_kind::BuildKind;
use crate::cargo::{self, CargoCommand, CargoCommandView};
use crate::digest;
use crate::error::{self, MainError, MainErrorView};
use crate::input::{Input, InputView};
use crate::metadata::{PackageMetadata, PackageMetadataView};
use crate::paths;
use crate::text;

verus! {

/// Whether a file has to be written.
#[derive(Debug)]
pub enum FileOverwrite {
    /// It already holds the contents.
    Same,
    /// The contents are new, and have the given hash.
    Changed { new_hash: String },
}

/// The hash of the new contents of a file that has to be written.
pub open spec fn overwrite_view(r: Result<FileOverwrite, MainError>) -> Result<
    Option<Seq<char>>,
    MainErrorView,
> {
    match r {
        Ok(FileOverwrite::Same) => Ok(None),
        Ok(FileOverwrite::Changed { new_hash }) => Ok(Some(new_hash@)),
        Err(e) => Err(e@),
    }
}

/// Overwrite a file if and only if the contents have changed: says whether they have, given the
/// hash of the old contents, if there are any.
pub fn overwrite_file(content: &str, hash: Option<&str>) -> (r: Result<FileOverwrite, MainError>)
    ensures
        overwrite_view(r) == if !digest::digestible(content@) {
            Err(digest::too_long())
        } else if text::opt_str(hash) == Some(digest::sha1_hex(content@)) {
            Ok(None)
        } else {
            Ok(Some(digest::sha1_hex(content@)))
        },
{
    let new_hash: String = match digest::try_hash_str(content) {
        Ok(h) => h,
        Err(e) => return Err(e),
    };
    match hash {
        Some(old_hash) => {
            if text::same_text(new_hash.as_str(), old_hash) {
                return Ok(FileOverwrite::Same);
            }
        },
        None => {},
    }
    Ok(FileOverwrite::Changed { new_hash })
}

/// A step towards a generated and compiled package.  No step removes anything.
#[derive(Debug)]
pub enum Step {
    /// Create a directory, with its parents, unless it is there.
    CreateDir { path: String },
    /// Write a file.
    WriteFile { path: String, content: String },
    /// Run a Cargo command, which has to succeed.
    Build { command: CargoCommand },
    /// Find out from the output of a Cargo command what the package's executable is called,
    /// and keep that in a file.
    FindTarget { command: CargoCommand, package_name: String, cache_path: String },
    /// Write metadata to a file.
    SaveMetadata { path: String, metadata: PackageMetadata },
}

/// What a `Step` says.
pub enum StepView {
    CreateDir { path: Seq<char> },
    WriteFile { path: Seq<char>, content: Seq<char> },
    Build { command: CargoCommandView },
    FindTarget { command: CargoCommandView, package_name: Seq<char>, cache_path: Seq<char> },
    SaveMetadata { path: Seq<char>, metadata: PackageMetadataView },
}

impl View for Step {
    type V = StepView;

    open spec fn view(&self) -> StepView {
        match *self {
            Step::CreateDir { path } => StepView::CreateDir { path: path@ },
            Step::WriteFile { path, content } => StepView::WriteFile {
                path: path@,
                content: content@,
            },
            Step::Build { command } => StepView::Build { command: command@ },
            Step::FindTarget { command, package_name, cache_path } => StepView::FindTarget {
                command: command@,
                package_name: package_name@,
                cache_path: cache_path@,
            },
            Step::SaveMetadata { path, metadata } => StepView::SaveMetadata {
                path: path@,
                metadata: metadata@,
            },
        }
    }
}

/// What each step of a list says.
pub open spec fn steps_view(steps: Seq<Step>) -> Seq<StepView> {
    steps.map_values(|s: Step| s@)
}

/// Whether the manifest file has to be written.
pub open spec fn manifest_changed(action: InputActionView) -> bool {
    !(action.old_metadata matches Some(old) && old.manifest_hash == digest::sha1_hex(
        action.manifest,
    ))
}

/// Whether the source file has to be written.  A forced recompile writes it in any case: that
/// invalidates its timestamp, and so leads to a recompile.  Forcing needs a compile to force.
pub open spec fn script_changed(action: InputActionView) -> bool {
    action.compile && action.force_compile || !(action.old_metadata matches Some(old)
        && old.script_hash == digest::sha1_hex(action.script))
}

/// The metadata that is recorded of the generated package.
pub open spec fn recorded_metadata(action: InputActionView) -> PackageMetadataView {
    PackageMetadataView {
        manifest_hash: if manifest_changed(action) {
            digest::sha1_hex(action.manifest)
        } else {
            action.metadata.manifest_hash
        },
        script_hash: if script_changed(action) {
            digest::sha1_hex(action.script)
        } else {
            action.metadata.script_hash
        },
        ..action.metadata
    }
}

/// The source file of a package.
pub open spec fn script_path(input: InputView, action: InputActionView) -> Seq<char> {
    paths::path_join(action.pkg_path, input.safe_name() + ".rs"@)
}

/// The steps that write the package's files.
pub open spec fn file_steps(input: InputView, action: InputActionView) -> Seq<StepView> {
    seq![StepView::CreateDir { path: action.pkg_path }] + (if manifest_changed(action) {
        seq![StepView::WriteFile { path: action.manifest_path(), content: action.manifest }]
    } else {
        Seq::empty()
    }) + (if script_changed(action) {
        seq![StepView::WriteFile { path: script_path(input, action), content: action.script }]
    } else {
        Seq::empty()
    })
}

/// The step that blanks the note of the package's executable, so that it names none.
pub open spec fn blank_note(action: InputActionView) -> StepView {
    StepView::WriteFile { path: paths::exe_path_file(action.pkg_path), content: Seq::empty() }
}

/// The steps that compile the package.  What an earlier build noted of its executable is blanked
/// first: only a build that succeeds may leave a note that names one.
pub open spec fn compile_steps(
    input: InputView,
    action: InputActionView,
    color: bool,
    cache_dir: Seq<char>,
) -> Seq<StepView> {
    if action.compile {
        seq![
            blank_note(action),
            StepView::Build { command: action.cargo("build"@, color, cache_dir) },
            StepView::FindTarget {
                command: cargo::target_command(
                    action.manifest_path(),
                    action.use_bincache,
                    action.metadata,
                    color,
                    cache_dir,
                ),
                package_name: input.package_name(),
                cache_path: paths::exe_path_file(action.pkg_path),
            },
        ] + (if action.use_bincache {
            seq![
                StepView::WriteFile {
                    path: paths::meta_hash_path(action.pkg_path),
                    content: action.metadata.hash(),
                },
            ]
        } else {
            Seq::empty()
        })
    } else {
        Seq::empty()
    }
}

/// The steps that record what was generated.
pub open spec fn record_steps(action: InputActionView) -> Seq<StepView> {
    if action.emit_metadata {
        seq![
            StepView::SaveMetadata {
                path: paths::pkg_metadata_path(action.pkg_path),
                metadata: recorded_metadata(action),
            },
        ]
    } else {
        Seq::empty()
    }
}

/// The steps that generate and compile the package.
pub open spec fn all_steps(
    input: InputView,
    action: InputActionView,
    color: bool,
    cache_dir: Seq<char>,
) -> Seq<StepView> {
    file_steps(input, action) + compile_steps(input, action, color, cache_dir) + record_steps(action)
}

/// The steps that generate and compile the package, or the error where there are none
/// because a text is too long to be hashed.
pub open spec fn generation(
    input: InputView,
    action: InputActionView,
    color: bool,
    cache_dir: Seq<char>,
) -> Result<Seq<StepView>, MainErrorView> {
    if !digest::digestible(action.manifest) || !digest::digestible(action.script) {
        Err(digest::too_long())
    } else if action.compile && action.use_bincache && action.metadata.try_hash() is Err {
        Err(digest::too_long())
    } else {
        Ok(all_steps(input, action, color, cache_dir))
    }
}

/// What comes of planning the steps, over views.
pub open spec fn plan_view(r: Result<Vec<Step>, MainError>) -> Result<
    Seq<StepView>,
    MainErrorView,
> {
    match r {
        Ok(steps) => Ok(steps_view(steps@)),
        Err(e) => Err(e@),
    }
}

/// Adds a step.
fn add_step(steps: &mut Vec<Step>, step: Step)
    ensures
        steps_view(final(steps)@) == steps_view(old(steps)@).push(step@),
{
    steps.push(step);
    assert(steps_view(steps@) =~= steps_view(old(steps)@).push(step@));
}

/// Adds the steps that write the package's files, and gives the metadata to be recorded.
fn add_file_steps(steps: &mut Vec<Step>, input: &Input, action: &InputAction) -> (r: Result<
    PackageMetadata,
    MainError,
>)
    requires
        old(steps)@.len() == 0,
    ensures
        r is Ok <==> digest::digestible(action@.manifest) && digest::digestible(action@.script),
        r matches Ok(meta) ==> meta@ == recorded_metadata(action@) && steps_view(final(steps)@)
            == file_steps(input@, action@),
        r matches Err(e) ==> e@ == digest::too_long(),
{
    let mut meta: PackageMetadata = action.metadata.clone();
    assert(steps_view(steps@) =~= Seq::empty());
    add_step(steps, Step::CreateDir { path: action.pkg_path.clone() });

    let mani_hash: Option<&str> = match &action.old_metadata {
        Some(old) => Some(old.manifest_hash.as_str()),
        None => None,
    };
    match overwrite_file(action.manifest.as_str(), mani_hash) {
        Ok(FileOverwrite::Same) => {},
        Ok(FileOverwrite::Changed { new_hash }) => {
            meta.manifest_hash = new_hash;
            add_step(
                steps,
                Step::WriteFile {
                    path: action.manifest_path(),
                    content: action.manifest.clone(),
                },
            );
        },
        Err(e) => return Err(e),
    }
    let ghost mid = steps_view(steps@);
    assert(mid =~= seq![StepView::CreateDir { path: action@.pkg_path }] + (if manifest_changed(
        action@,
    ) {
        seq![StepView::WriteFile { path: action@.manifest_path(), content: action@.manifest }]
    } else {
        Seq::empty()
    }));

    let script_hash: Option<&str> = if action.compile && action.force_compile {
        None
    } else {
        match &action.old_metadata {
            Some(old) => Some(old.script_hash.as_str()),
            None => None,
        }
    };
    match overwrite_file(action.script.as_str(), script_hash) {
        Ok(FileOverwrite::Same) => {
            assert(mid =~= file_steps(input@, action@));
        },
        Ok(FileOverwrite::Changed { new_hash }) => {
            meta.script_hash = new_hash;
            let mut file_name: String = input.safe_name().to_owned();
            file_name.append(".rs");
            let path: String = paths::join(action.pkg_path.as_str(), file_name.as_str());
            add_step(steps, Step::WriteFile { path, content: action.script.clone() });
            assert(steps_view(steps@) =~= file_steps(input@, action@));
        },
        Err(e) => return Err(e),
    }
    assert(meta@ =~= recorded_metadata(action@));
    Ok(meta)
}

/// Adds the steps that compile the package.
fn add_compile_steps(
    steps: &mut Vec<Step>,
    input: &Input,
    action: &InputAction,
    meta: &PackageMetadata,
    color: bool,
    cache_dir: &str,
) -> (r: Result<(), MainError>)
    requires
        meta@ == recorded_metadata(action@),
    ensures
        error::unit_view(r) == if action@.compile && action@.use_bincache
            && action@.metadata.try_hash() is Err {
            Err(digest::too_long())
        } else {
            Ok(())
        },
        r is Ok ==> steps_view(final(steps)@) == steps_view(old(steps)@) + compile_steps(
            input@,
            action@,
            color,
            cache_dir@,
        ),
{
    let ghost start = steps_view(steps@);
    if !action.compile {
        assert(start =~= start + compile_steps(input@, action@, color, cache_dir@));
        return Ok(());
    }
    // A build that fails must not leave the note of an earlier one behind.  It is not removed:
    // the package may be in a directory of the user's.
    let cache_path: String = paths::exe_path_cache(action.pkg_path.as_str());
    add_step(steps, Step::WriteFile { path: cache_path, content: String::new() });

    let mani_path: String = action.manifest_path();
    let command: CargoCommand = cargo::cargo(
        "build",
        mani_path.as_str(),
        action.use_bincache,
        meta,
        color,
        cache_dir,
    );
    add_step(steps, Step::Build { command });

    // Find out and cache what the executable was called.
    let command: CargoCommand = cargo::cargo_target_command(
        mani_path.as_str(),
        action.use_bincache,
        meta,
        color,
        cache_dir,
    );
    let cache_path: String = paths::exe_path_cache(action.pkg_path.as_str());
    let package_name: String = input.package_name();
    add_step(steps, Step::FindTarget { command, package_name, cache_path });

    if action.use_bincache {
        // This ties the executable to a particular chunk of metadata, to avoid issues with
        // multiple scripts with the same name being compiled to a common target directory.
        let meta_hash: String = match action.metadata.try_sha1_hash() {
            Ok(h) => h,
            Err(e) => return Err(e),
        };
        let path: String = paths::get_meta_hash_path(
            action.use_bincache,
            action.pkg_path.as_str(),
        );
        add_step(steps, Step::WriteFile { path, content: meta_hash });
    }
    assert(steps_view(steps@) =~= start + compile_steps(input@, action@, color, cache_dir@));
    Ok(())
}

/// Generate and compile a package from the input: the steps that do so, in order.
///
/// Everything that compilation depends on is taken from the action, and so has passed through
/// the decision on it.
pub fn gen_pkg_and_compile(
    input: &Input,
    action: &InputAction,
    color: bool,
    cache_dir: &str,
) -> (r: Result<Vec<Step>, MainError>)
    ensures
        plan_view(r) == generation(input@, action@, color, cache_dir@),
{
    let mut steps: Vec<Step> = Vec::new();
    let meta: PackageMetadata = match add_file_steps(&mut steps, input, action) {
        Ok(meta) => meta,
        Err(e) => return Err(e),
    };
    match add_compile_steps(&mut steps, input, action, &meta, color, cache_dir) {
        Ok(()) => {},
        Err(e) => return Err(e),
    }
    // The timestamp that is checked later is that of the metadata, *not* of the executable.
    if action.emit_metadata {
        let path: String = paths::get_pkg_metadata_path(action.pkg_path.as_str());
        add_step(&mut steps, Step::SaveMetadata { path, metadata: meta });
    }
    assert(steps_view(steps@) =~= all_steps(input@, action@, color, cache_dir@));
    Ok(steps)
}

/// What follows after a step.
#[derive(Debug)]
pub enum Next {
    /// The step with the given number.  Where the build failed, its error is pending until what
    /// was generated has been recorded.
    Continue { index: usize, pending: Option<MainError> },
    /// Nothing: the package is there.
    Done,
    /// The end, after the directory has been removed, if one is to be.
    Abort { remove: Option<String>, error: MainError },
}

/// What a `Next` says.
pub enum NextView {
    Continue { index: int, pending: Option<MainErrorView> },
    Done,
    Abort { remove: Option<Seq<char>>, error: MainErrorView },
}

/// What an optional error says.
pub open spec fn opt_error(e: Option<MainError>) -> Option<MainErrorView> {
    match e {
        Some(e) => Some(e@),
        None => None,
    }
}

impl View for Next {
    type V = NextView;

    open spec fn view(&self) -> NextView {
        match *self {
            Next::Continue { index, pending } => NextView::Continue {
                index: index as int,
                pending: opt_error(pending),
            },
            Next::Done => NextView::Done,
            Next::Abort { remove, error } => NextView::Abort {
                remove: text::opt_text(remove),
                error: error@,
            },
        }
    }
}

/// Whether the steps end by recording what was generated, and that is yet to come after the step
/// with the given number.
pub open spec fn record_follows(steps: Seq<StepView>, index: int) -> bool {
    index + 1 < steps.len() && steps.last() is SaveMetadata
}

/// What follows after the step with the given number.
///
/// Where the build fails, the package stays, and with it the compiled dependencies: what follows
/// is that what was generated is recorded, and only then does the error of the build end it all.
/// Where another step fails once the package directory is there, the directory is removed, but
/// only in the cache: user files are never deleted.
pub open spec fn after_step(
    action: InputActionView,
    steps: Seq<StepView>,
    index: int,
    pending: Option<MainErrorView>,
    result: Result<(), MainErrorView>,
) -> NextView {
    match result {
        Ok(()) => if index + 1 < steps.len() {
            NextView::Continue { index: index + 1, pending }
        } else {
            match pending {
                Some(error) => NextView::Abort { remove: None, error },
                None => NextView::Done,
            }
        },
        Err(error) => if !(steps[index] is Build) {
            NextView::Abort {
                remove: if index > 0 && action.using_cache {
                    Some(action.pkg_path)
                } else {
                    None
                },
                error,
            }
        } else if record_follows(steps, index) {
            NextView::Continue { index: steps.len() - 1, pending: Some(error) }
        } else {
            NextView::Abort { remove: None, error }
        },
    }
}

/// What follows after the step with the given number.
pub fn follow_step(
    action: &InputAction,
    steps: &Vec<Step>,
    index: usize,
    pending: Option<MainError>,
    result: Result<(), MainError>,
) -> (r: Next)
    requires
        index < steps@.len(),
    ensures
        r@ == after_step(
            action@,
            steps_view(steps@),
            index as int,
            opt_error(pending),
            error::unit_view(result),
        ),
        r matches Next::Continue { index: next, .. } ==> index < next < steps@.len(),
{
    let last: usize = steps.len() - 1;
    assert(steps_view(steps@)[index as int] == steps@[index as int]@);
    assert(steps_view(steps@).last() == steps@[last as int]@);
    match result {
        Ok(()) => if index < last {
            Next::Continue { index: index + 1, pending }
        } else {
            match pending {
                Some(error) => Next::Abort { remove: None, error },
                None => Next::Done,
            }
        },
        Err(error) => {
            if !matches!(&steps[index], Step::Build { .. }) {
                let remove: Option<String> = if index > 0 && action.using_cache {
                    Some(action.pkg_path.clone())
                } else {
                    None
                };
                Next::Abort { remove, error }
            } else if index < last && matches!(&steps[last], Step::SaveMetadata { .. }) {
                Next::Continue { index: last, pending: Some(error) }
            } else {
                Next::Abort { remove: None, error }
            }
        },
    }
}

/// What is recorded of a generated package is exactly the metadata that was decided on.
pub proof fn decided_metadata_is_recorded(
    input: InputView,
    deps: Seq<(Seq<char>, Seq<char>)>,
    prelude: Seq<Seq<char>>,
    args: ArgsView,
    manifest: Seq<char>,
    script: Seq<char>,
    cache_dir: Seq<char>,
    cached: Option<PackageMetadataView>,
    exe_exists: bool,
    found: Option<Seq<char>>,
)
    ensures
        ({
            let first = action::first_action(
                input,
                deps,
                prelude,
                args,
                manifest,
                script,
                cache_dir,
            );
            let action = action::settled(first, args.gen_pkg_only, cached, exe_exists, found);
            recorded_metadata(action) == first.metadata
        }),
{
}

/// Compiled packages are cached, and generated anew only if the script or its metadata have
/// changed: a regular script that is run again just as before, and is not forced to be compiled,
/// finds the metadata and the `meta-hash` file that the first run wrote.  Then nothing is
/// compiled, and of the package nothing is written but its metadata, so that it counts as used.
pub proof fn second_run_uses_the_cache(
    input: InputView,
    deps: Seq<(Seq<char>, Seq<char>)>,
    prelude: Seq<Seq<char>>,
    args: ArgsView,
    manifest: Seq<char>,
    script: Seq<char>,
    cache_dir: Seq<char>,
    color: bool,
    cached: Option<PackageMetadataView>,
    exe_exists: bool,
    found: Option<Seq<char>>,
)
    requires
        args.build_kind == BuildKind::Normal,
        !args.gen_pkg_only,
        !args.force,
    ensures
        ({
            let start = action::first_action(
                input,
                deps,
                prelude,
                args,
                manifest,
                script,
                cache_dir,
            );
            let first = action::settled(start, false, cached, exe_exists, found);
            let steps = all_steps(input, first, color, cache_dir);
            let recorded = recorded_metadata(first);
            let second = action::settled(start, false, Some(recorded), true, Some(recorded.hash()));
            &&& steps.contains(
                StepView::SaveMetadata {
                    path: paths::pkg_metadata_path(start.pkg_path),
                    metadata: recorded,
                },
            )
            &&& first.compile && start.use_bincache ==> steps.contains(
                StepView::WriteFile {
                    path: paths::meta_hash_path(start.pkg_path),
                    content: recorded.hash(),
                },
            )
            &&& !second.compile
            &&& second.execute == start.execute
            &&& all_steps(input, second, color, cache_dir) == seq![
                StepView::CreateDir { path: start.pkg_path },
                StepView::SaveMetadata {
                    path: paths::pkg_metadata_path(start.pkg_path),
                    metadata: recorded,
                },
            ]
        }),
{
    let start = action::first_action(input, deps, prelude, args, manifest, script, cache_dir);
    let first = action::settled(start, false, cached, exe_exists, found);
    let steps = all_steps(input, first, color, cache_dir);
    let recorded = recorded_metadata(first);
    decided_metadata_is_recorded(
        input,
        deps,
        prelude,
        args,
        manifest,
        script,
        cache_dir,
        cached,
        exe_exists,
        found,
    );
    assert(recorded == start.metadata);
    let saved = StepView::SaveMetadata {
        path: paths::pkg_metadata_path(start.pkg_path),
        metadata: recorded,
    };
    assert(steps[steps.len() - 1] == saved);
    if first.compile && start.use_bincache {
        let tied = StepView::WriteFile {
            path: paths::meta_hash_path(start.pkg_path),
            content: recorded.hash(),
        };
        assert(compile_steps(input, first, color, cache_dir)[3] == tied);
        assert(steps[file_steps(input, first).len() + 3int] == tied);
    }
    let second = action::settled(start, false, Some(recorded), true, Some(recorded.hash()));
    action::compiled_unless_fresh(start, Some(recorded), true, Some(recorded.hash()));
    assert(second == (InputActionView { old_metadata: Some(recorded), ..start }));
    assert(!manifest_changed(second));
    assert(!script_changed(second));
    assert(recorded_metadata(second) == recorded);
    assert(all_steps(input, second, color, cache_dir) =~= seq![
        StepView::CreateDir { path: start.pkg_path },
        saved,
    ]);
}

/// Metadata is the last thing to be written, and so only where everything else succeeded, but for
/// the build: where that fails, metadata is what is written next.
pub proof fn metadata_comes_last(
    input: InputView,
    action: InputActionView,
    color: bool,
    cache_dir: Seq<char>,
    i: int,
    pending: Option<MainErrorView>,
    result: Result<(), MainErrorView>,
)
    requires
        action.emit_metadata,
        0 <= i < all_steps(input, action, color, cache_dir).len(),
    ensures
        ({
            let steps = all_steps(input, action, color, cache_dir);
            let last = steps.len() - 1;
            &&& steps[i] is SaveMetadata <==> i == last
            &&& after_step(action, steps, i, pending, result) matches NextView::Continue {
                index,
                ..
            } ==> if result is Ok {
                index == i + 1
            } else {
                steps[i] is Build && index == last
            }
        }),
{
    let files = file_steps(input, action);
    let compile = compile_steps(input, action, color, cache_dir);
    let all = all_steps(input, action, color, cache_dir);
    assert(all.len() == files.len() + compile.len() + 1);
    if i < files.len() {
        assert(all[i] == files[i]);
    } else if i < files.len() + compile.len() {
        assert(all[i] == compile[i - files.len()]);
    } else {
        assert(all[i] == record_steps(action)[0]);
    }
}

/// Where the build fails, the package stays: what was generated is recorded all the same, and
/// then the error of the build is what comes of it, with no directory removed.  Nothing in between
/// is done, so that the note of the executable stays blank, and there is no new `meta-hash` file.
pub proof fn failed_build_keeps_the_package(
    input: InputView,
    action: InputActionView,
    color: bool,
    cache_dir: Seq<char>,
    index: int,
    pending: Option<MainErrorView>,
    error: MainErrorView,
)
    requires
        0 <= index < all_steps(input, action, color, cache_dir).len(),
        all_steps(input, action, color, cache_dir)[index] is Build,
    ensures
        ({
            let steps = all_steps(input, action, color, cache_dir);
            let last = steps.len() - 1;
            &&& index > 0
            &&& steps[index - 1] == blank_note(action)
            &&& if action.emit_metadata {
                &&& index < last
                &&& steps[last] == (StepView::SaveMetadata {
                    path: paths::pkg_metadata_path(action.pkg_path),
                    metadata: recorded_metadata(action),
                })
                &&& after_step(action, steps, index, pending, Err(error)) == (NextView::Continue {
                    index: last,
                    pending: Some(error),
                })
                &&& after_step(action, steps, last, Some(error), Ok(())) == (NextView::Abort {
                    remove: None,
                    error,
                })
            } else {
                after_step(action, steps, index, pending, Err(error)) == (NextView::Abort {
                    remove: None,
                    error,
                })
            }
        }),
{
    let files = file_steps(input, action);
    let compile = compile_steps(input, action, color, cache_dir);
    let all = all_steps(input, action, color, cache_dir);
    if index < files.len() {
        assert(all[index] == files[index]);
    } else if index < files.len() + compile.len() {
        assert(all[index] == compile[index - files.len()]);
        assert(all[index - 1] == compile[index - 1 - files.len()]);
    }
    if !action.emit_metadata {
        assert(all.last() == compile.last());
    }
}

/// A regular script whose build failed is compiled when it is run again, whatever metadata has been
/// recorded: the note of its executable is blank, and so none is found.
pub proof fn failed_build_is_tried_again(
    input: InputView,
    deps: Seq<(Seq<char>, Seq<char>)>,
    prelude: Seq<Seq<char>>,
    args: ArgsView,
    manifest: Seq<char>,
    script: Seq<char>,
    cache_dir: Seq<char>,
    cached: Option<PackageMetadataView>,
    found: Option<Seq<char>>,
)
    requires
        args.build_kind == BuildKind::Normal,
        !args.gen_pkg_only,
    ensures
        action::settled(
            action::first_action(input, deps, prelude, args, manifest, script, cache_dir),
            false,
            cached,
            false,
            found,
        ).compile,
{
}

/// A directory that the user gave is never removed, whatever fails; one in the cache is, once it
/// is there, unless it is the build that fails.
pub proof fn given_directories_stay(
    input: InputView,
    deps: Seq<(Seq<char>, Seq<char>)>,
    prelude: Seq<Seq<char>>,
    args: ArgsView,
    manifest: Seq<char>,
    script: Seq<char>,
    cache_dir: Seq<char>,
    cached: Option<PackageMetadataView>,
    exe_exists: bool,
    found: Option<Seq<char>>,
    steps: Seq<StepView>,
    index: int,
    pending: Option<MainErrorView>,
    result: Result<(), MainErrorView>,
)
    requires
        0 <= index < steps.len(),
    ensures
        ({
            let first = action::first_action(
                input,
                deps,
                prelude,
                args,
                manifest,
                script,
                cache_dir,
            );
            let action = action::settled(first, args.gen_pkg_only, cached, exe_exists, found);
            let next = after_step(action, steps, index, pending, result);
            &&& next matches NextView::Abort { remove: Some(path), .. } ==> {
                &&& args.pkg_path is None
                &&& path == paths::path_join(paths::script_cache(cache_dir), input.id(deps))
                &&& result is Err && index > 0 && !(steps[index] is Build)
            }
            &&& args.pkg_path is None && index > 0 && !(steps[index] is Build) ==> (
            result matches Err(error) ==> next == (NextView::Abort {
                remove: Some(paths::path_join(paths::script_cache(cache_dir), input.id(deps))),
                error,
            }))
        }),
{
}

/// Whether a step only creates the package directory or writes into it, and there only the manifest,
/// the source, the note of the executable, the `meta-hash` file or the metadata, or else is one of
/// the two Cargo commands that build the package.
pub open spec fn only_makes_the_package(
    input: InputView,
    action: InputActionView,
    color: bool,
    cache_dir: Seq<char>,
    step: StepView,
) -> bool {
    match step {
        StepView::CreateDir { path } => path == action.pkg_path,
        StepView::WriteFile { path, .. } => {
            ||| path == action.manifest_path()
            ||| path == script_path(input, action)
            ||| path == paths::exe_path_file(action.pkg_path)
            ||| path == paths::meta_hash_path(action.pkg_path)
        },
        StepView::Build { command } => command == action.cargo("build"@, color, cache_dir),
        StepView::FindTarget { command, cache_path, .. } => {
            &&& command == cargo::target_command(
                action.manifest_path(),
                action.use_bincache,
                action.metadata,
                color,
                cache_dir,
            )
            &&& cache_path == paths::exe_path_file(action.pkg_path)
        },
        StepView::SaveMetadata { path, .. } => path == paths::pkg_metadata_path(action.pkg_path),
    }
}

/// Nothing at all is removed for a package outside the cache, whatever succeeds or fails: its steps
/// only make the package, and after none of them is there anything to be removed.
pub proof fn nothing_is_removed_outside_the_cache(
    input: InputView,
    action: InputActionView,
    color: bool,
    cache_dir: Seq<char>,
    i: int,
    pending: Option<MainErrorView>,
    result: Result<(), MainErrorView>,
)
    requires
        !action.using_cache,
        0 <= i < all_steps(input, action, color, cache_dir).len(),
    ensures
        ({
            let steps = all_steps(input, action, color, cache_dir);
            &&& only_makes_the_package(input, action, color, cache_dir, steps[i])
            &&& after_step(action, steps, i, pending, result) matches NextView::Abort {
                remove,
                ..
            } ==> remove is None
        }),
{
    steps_only_make_the_package(input, action, color, cache_dir, i);
}

/// The steps for a package only make it, in the cache or outside it: none removes anything.
pub proof fn steps_only_make_the_package(
    input: InputView,
    action: InputActionView,
    color: bool,
    cache_dir: Seq<char>,
    i: int,
)
    requires
        0 <= i < all_steps(input, action, color, cache_dir).len(),
    ensures
        only_makes_the_package(
            input,
            action,
            color,
            cache_dir,
            all_steps(input, action, color, cache_dir)[i],
        ),
{
    let files = file_steps(input, action);
    let compile = compile_steps(input, action, color, cache_dir);
    let all = all_steps(input, action, color, cache_dir);
    if i < files.len() {
        assert(all[i] == files[i]);
    } else if i < files.len() + compile.len() {
        assert(all[i] == compile[i - files.len()]);
    } else {
        assert(all[i] == record_steps(action)[i - files.len() - compile.len()]);
    }
}

/// Forcing a compile has no effect where nothing is compiled.
pub proof fn force_needs_compile(
    input: InputView,
    action: InputActionView,
    color: bool,
    cache_dir: Seq<char>,
)
    requires
        !action.compile,
    ensures
        generation(input, action, color, cache_dir) == generation(
            input,
            InputActionView { force_compile: false, ..action },
            color,
            cache_dir,
        ),
{
    let plain = InputActionView { force_compile: false, ..action };
    assert(action.manifest_path() == plain.manifest_path());
    assert(script_changed(action) == script_changed(plain));
    assert(recorded_metadata(action) == recorded_metadata(plain));
}

/// A forced compile writes the source file in any case, so that Cargo sees it as new.
pub proof fn force_rewrites_the_script(
    input: InputView,
    action: InputActionView,
    color: bool,
    cache_dir: Seq<char>,
)
    requires
        action.compile,
        action.force_compile,
    ensures
        all_steps(input, action, color, cache_dir).contains(
            StepView::WriteFile { path: script_path(input, action), content: action.script },
        ),
{
    let files = file_steps(input, action);
    let all = all_steps(input, action, color, cache_dir);
    let k = files.len() - 1;
    assert(files[k] == StepView::WriteFile {
        path: script_path(input, action),
        content: action.script,
    });
    assert(all[k] == files[k]);
}

} // verus!

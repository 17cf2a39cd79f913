//! What the user asks for.
use vstd::prelude::*;
use vstd::string::*;
use crate::build_kind::BuildKind;
use crate::text;

verus! {

/// What the program is asked to do.
#[derive(Debug)]
pub enum SubCommand<T> {
    /// To run a script.
    Script(Args),
    /// To do something with templates.
    Templates(T),
}

/// How a script is to be run.
#[derive(Debug)]
pub struct Args {
    pub script: Option<String>,
    pub args: Vec<String>,
    pub features: Option<String>,
    pub expr: bool,
    pub loop_: bool,
    pub count: bool,
    pub pkg_path: Option<String>,
    pub gen_pkg_only: bool,
    pub build_only: bool,
    pub clear_cache: bool,
    pub debug: bool,
    pub dep: Vec<String>,
    pub force: bool,
    pub unstable_features: Vec<String>,
    pub use_bincache: Option<bool>,
    pub build_kind: BuildKind,
    pub template: Option<String>,
}

/// What an `Args` says.
#[verifier::ext_equal]
pub struct ArgsView {
    pub script: Option<Seq<char>>,
    pub args: Seq<Seq<char>>,
    pub features: Option<Seq<char>>,
    pub expr: bool,
    pub loop_: bool,
    pub count: bool,
    pub pkg_path: Option<Seq<char>>,
    pub gen_pkg_only: bool,
    pub build_only: bool,
    pub clear_cache: bool,
    pub debug: bool,
    pub dep: Seq<Seq<char>>,
    pub force: bool,
    pub unstable_features: Seq<Seq<char>>,
    pub use_bincache: Option<bool>,
    pub build_kind: BuildKind,
    pub template: Option<Seq<char>>,
}

impl View for Args {
    type V = ArgsView;

    open spec fn view(&self) -> ArgsView {
        ArgsView {
            script: text::opt_text(self.script),
            args: text::texts(self.args@),
            features: text::opt_text(self.features),
            expr: self.expr,
            loop_: self.loop_,
            count: self.count,
            pkg_path: text::opt_text(self.pkg_path),
            gen_pkg_only: self.gen_pkg_only,
            build_only: self.build_only,
            clear_cache: self.clear_cache,
            debug: self.debug,
            dep: text::texts(self.dep@),
            force: self.force,
            unstable_features: text::texts(self.unstable_features@),
            use_bincache: self.use_bincache,
            build_kind: self.build_kind,
            template: text::opt_text(self.template),
        }
    }
}

/// What was found on the command line.
pub struct Matches {
    pub script: Option<String>,
    pub args: Option<Vec<String>>,
    pub features: Option<String>,
    pub expr: bool,
    pub loop_: bool,
    pub count: bool,
    pub pkg_path: Option<String>,
    pub gen_pkg_only: bool,
    pub build_only: bool,
    pub clear_cache: bool,
    pub debug: bool,
    pub dep: Option<Vec<String>>,
    pub force: bool,
    pub unstable_features: Option<Vec<String>>,
    pub use_bincache: Option<String>,
    pub test: bool,
    pub bench: bool,
    pub template: Option<String>,
}

/// Whether a value is one that stands for yes or no.
pub open spec fn is_yes_or_no(v: Option<Seq<char>>) -> bool {
    v matches Some(s) ==> s == "yes"@ || s == "no"@
}

/// What a yes or a no means.
pub open spec fn yes_or_no_of(v: Option<Seq<char>>) -> Option<bool> {
    match v {
        Some(s) => Some(s == "yes"@),
        None => None,
    }
}

/// What a yes or a no means.
pub fn yes_or_no(v: Option<&str>) -> (r: Option<bool>)
    requires
        is_yes_or_no(text::opt_str(v)),
    ensures
        r == yes_or_no_of(text::opt_str(v)),
{
    match v {
        Some(s) => Some(text::same_text(s, "yes")),
        None => None,
    }
}

/// The values that were given, if any were.
pub open spec fn given_texts(v: Option<Vec<String>>) -> Seq<Seq<char>> {
    match v {
        Some(list) => text::texts(list@),
        None => Seq::empty(),
    }
}

/// The values that were given, if any were.
fn given(v: Option<Vec<String>>) -> (r: Vec<String>)
    ensures
        text::texts(r@) == given_texts(v),
{
    match v {
        Some(list) => list,
        None => {
            let r: Vec<String> = Vec::new();
            assert(text::texts(r@) =~= Seq::empty());
            r
        },
    }
}

impl Matches {
    /// Whether what was found makes sense: `use_bincache` is a yes or a no, and not both tests
    /// and benchmarks are asked for.
    pub open spec fn consistent(self) -> bool {
        is_yes_or_no(text::opt_text(self.use_bincache)) && !(self.test && self.bench)
    }

    /// Whether what was found makes sense.
    pub fn is_consistent(&self) -> (r: bool)
        ensures
            r == self.consistent(),
    {
        let yes_or_no: bool = match &self.use_bincache {
            Some(v) => text::same_text(v.as_str(), "yes") || text::same_text(v.as_str(), "no"),
            None => true,
        };
        yes_or_no && !(self.test && self.bench)
    }

    /// What it means for how the script is to be run.
    pub open spec fn meaning(self) -> ArgsView {
        ArgsView {
            script: text::opt_text(self.script),
            args: given_texts(self.args),
            features: text::opt_text(self.features),
            expr: self.expr,
            loop_: self.loop_,
            count: self.count,
            pkg_path: text::opt_text(self.pkg_path),
            gen_pkg_only: self.gen_pkg_only,
            build_only: self.build_only,
            clear_cache: self.clear_cache,
            debug: self.debug,
            dep: given_texts(self.dep),
            force: self.force,
            unstable_features: given_texts(self.unstable_features),
            use_bincache: yes_or_no_of(text::opt_text(self.use_bincache)),
            build_kind: BuildKind::of_flags(self.test, self.bench),
            template: text::opt_text(self.template),
        }
    }
}

/// What the command line means, given what was found of the `templates` subcommand and of
/// everything else.
pub fn parse_args<T>(templates: Option<T>, m: Matches) -> (r: SubCommand<T>)
    requires
        templates is None ==> m.consistent(),
    ensures
        match r {
            SubCommand::Templates(t) => templates == Some(t),
            SubCommand::Script(args) => templates is None && args@ == m.meaning(),
        },
{
    match templates {
        Some(t) => return SubCommand::Templates(t),
        None => {},
    }
    let ghost found = m;
    let use_bincache: Option<bool> = match &m.use_bincache {
        Some(v) => yes_or_no(Some(v.as_str())),
        None => yes_or_no(None),
    };
    let args: Args = Args {
        script: m.script,
        args: given(m.args),
        features: m.features,
        expr: m.expr,
        loop_: m.loop_,
        count: m.count,
        pkg_path: m.pkg_path,
        gen_pkg_only: m.gen_pkg_only,
        build_only: m.build_only,
        clear_cache: m.clear_cache,
        debug: m.debug,
        dep: given(m.dep),
        force: m.force,
        unstable_features: given(m.unstable_features),
        use_bincache,
        build_kind: BuildKind::from_flags(m.test, m.bench),
        template: m.template,
    };
    assert(args@ =~= found.meaning());
    SubCommand::Script(args)
}

} // verus!

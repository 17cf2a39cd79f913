//! Where a script comes from, and the names that follow from it.
use vstd::prelude::*;
use vstd::string::*;
use crate::consts::{ID_DIGEST_LEN_MAX, STUB_HASHES};
use crate::deps;
use crate::digest;
use crate::error::{self, MainError, MainErrorView};
use crate::paths;
use crate::text;

verus! {

/// Represents an input source for a script.
#[derive(Clone, Debug)]
pub enum Input<'a> {
    /// The input is a script file.
    ///
    /// The tuple members are: the name, absolute path, script contents, last modified time.
    File(&'a str, &'a str, &'a str, u128),
    /// The input is an expression.
    ///
    /// The tuple member is: the script contents, and the template (if any).
    Expr(&'a str, Option<&'a str>),
    /// The input is a loop expression.
    ///
    /// The tuple member is: the script contents, whether the `--count` flag was given.
    Loop(&'a str, bool),
}

/// What an `Input` says.
pub enum InputView {
    File(Seq<char>, Seq<char>, Seq<char>, u128),
    Expr(Seq<char>, Option<Seq<char>>),
    Loop(Seq<char>, bool),
}

impl<'a> View for Input<'a> {
    type V = InputView;

    open spec fn view(&self) -> InputView {
        match *self {
            Input::File(name, path, content, mtime) => InputView::File(
                name@,
                path@,
                content@,
                mtime,
            ),
            Input::Expr(content, template) => InputView::Expr(content@, text::opt_str(template)),
            Input::Loop(content, count) => InputView::Loop(content@, count),
        }
    }
}

/// Whether a character is a decimal digit.
pub open spec fn is_digit(c: char) -> bool {
    '0' <= c <= '9'
}

/// Whether a character may stand in a package name.
pub open spec fn is_name_char(c: char) -> bool {
    is_digit(c) || 'a' <= c <= 'z' || 'A' <= c <= 'Z' || c == '_'
}

/// What stands in a package name for a character.
pub open spec fn name_char(c: char) -> char {
    if is_name_char(c) {
        c
    } else {
        '_'
    }
}

/// The package name for a name: what a package name cannot hold becomes an underscore, and an
/// underscore goes in front of a leading digit, and stands where there is nothing.
pub open spec fn package_name_of(name: Seq<char>) -> Seq<char> {
    let kept = name.map_values(|c: char| name_char(c));
    if name.len() == 0 || is_digit(name[0]) {
        seq!['_'] + kept
    } else {
        kept
    }
}

/// What is hashed of a list of dependencies.
pub open spec fn deps_text(deps: Seq<(Seq<char>, Seq<char>)>) -> Seq<char>
    decreases deps.len(),
{
    if deps.len() == 0 {
        Seq::empty()
    } else {
        deps_text(deps.drop_last()) + "dep="@ + deps.last().0 + "="@ + deps.last().1 + ";"@
    }
}

/// At most as much of a digest as a package ID holds.
pub open spec fn short_digest(digest: Seq<char>) -> Seq<char> {
    if STUB_HASHES {
        "stub"@
    } else if digest.len() <= ID_DIGEST_LEN_MAX {
        digest
    } else {
        digest.take(ID_DIGEST_LEN_MAX as int)
    }
}

impl InputView {
    /// The path to the script, if it has one.
    pub open spec fn path(self) -> Option<Seq<char>> {
        match self {
            InputView::File(_, path, _, _) => Some(path),
            _ => None,
        }
    }

    /// When the script was last modified, if it is in a file.
    pub open spec fn modified(self) -> Option<u128> {
        match self {
            InputView::File(_, _, _, mtime) => Some(mtime),
            _ => None,
        }
    }

    /// The template for the script, if it has one.
    pub open spec fn template(self) -> Option<Seq<char>> {
        match self {
            InputView::Expr(_, template) => template,
            _ => None,
        }
    }

    /// The name of the script as a file.
    pub open spec fn safe_name(self) -> Seq<char> {
        match self {
            InputView::File(name, _, _, _) => name,
            InputView::Expr(..) => "expr"@,
            InputView::Loop(..) => "loop"@,
        }
    }

    /// The name of the script as a package.
    pub open spec fn package_name(self) -> Seq<char> {
        package_name_of(self.safe_name())
    }

    /// The directory that relative paths in the script start from.
    pub open spec fn base_path(self, current_dir: Seq<char>) -> Option<Seq<char>> {
        match self {
            InputView::File(_, path, _, _) => paths::path_parent(path),
            _ => Some(current_dir),
        }
    }

    /// What is hashed for the package ID.
    pub open spec fn id_text(self, deps: Seq<(Seq<char>, Seq<char>)>) -> Seq<char> {
        match self {
            InputView::File(_, path, _, _) => path,
            InputView::Expr(content, template) => deps_text(deps) + "template:"@ + (
            match template {
                Some(t) => t,
                None => Seq::empty(),
            }) + ";"@ + content,
            InputView::Loop(content, count) => deps_text(deps) + "count:"@ + (if count {
                "true;"@
            } else {
                "false;"@
            }) + content,
        }
    }

    /// What stands in the package ID in front of the digest.
    pub open spec fn id_prefix(self) -> Seq<char> {
        match self {
            InputView::File(name, _, _, _) => "file-"@ + name + "-"@,
            InputView::Expr(..) => "expr-"@,
            InputView::Loop(..) => "loop-"@,
        }
    }

    /// The package ID.
    pub open spec fn id(self, deps: Seq<(Seq<char>, Seq<char>)>) -> Seq<char> {
        self.id_prefix() + short_digest(digest::sha1_hex(self.id_text(deps)))
    }

    /// The package ID, or the error where what is hashed for it is too long.
    pub open spec fn try_id(self, deps: Seq<(Seq<char>, Seq<char>)>) -> Result<
        Seq<char>,
        MainErrorView,
    > {
        if digest::digestible(self.id_text(deps)) {
            Ok(self.id(deps))
        } else {
            Err(digest::too_long())
        }
    }
}

impl<'a> Input<'a> {
    /// Return the path to the script, if it has one.
    pub fn path(&self) -> (r: Option<&str>)
        ensures
            text::opt_str(r) == self@.path(),
    {
        match *self {
            Input::File(_, path, _, _) => Some(path),
            Input::Expr(..) => None,
            Input::Loop(..) => None,
        }
    }

    /// Return the "safe name" for the input.  This should be filename-safe.
    ///
    /// Currently, nothing is done to ensure this.
    pub fn safe_name(&self) -> (r: &str)
        ensures
            r@ == self@.safe_name(),
    {
        match *self {
            Input::File(name, _, _, _) => name,
            Input::Expr(..) => "expr",
            Input::Loop(..) => "loop",
        }
    }

    /// Return the package name for the input, which has the shape of a Rust identifier.
    pub fn package_name(&self) -> (r: String)
        ensures
            r@ == self@.package_name(),
            is_identifier_shaped(r@),
    {
        let name: Vec<char> = text::chars_of(self.safe_name());
        let mut r: String = String::new();
        if name.len() == 0 || ('0' <= name[0] && name[0] <= '9') {
            r.push('_');
        }
        let mut i: usize = 0;
        let ghost kept = name@.map_values(|c: char| name_char(c));
        let ghost start = r@;
        assert(r@ =~= start + kept.take(0));
        while i < name.len()
            invariant
                i <= name.len(),
                kept == name@.map_values(|c: char| name_char(c)),
                r@ == start + kept.take(i as int),
            decreases name.len() - i,
        {
            let c: char = name[i];
            if ('0' <= c && c <= '9') || ('a' <= c && c <= 'z') || ('A' <= c && c <= 'Z') || c
                == '_' {
                r.push(c);
            } else {
                r.push('_');
            }
            assert(kept.take(i + 1) =~= kept.take(i as int).push(name_char(c)));
            assert(r@ =~= start + kept.take(i + 1));
            i = i + 1;
        }
        assert(kept.take(name@.len() as int) =~= kept);
        assert(r@ =~= self@.package_name());
        proof {
            package_names_are_identifiers(self@.safe_name());
        }
        r
    }

    /// Base directory for resolving relative paths, given the directory that the program was
    /// started in.  A script file has to have a parent directory.
    pub fn base_path(&self, current_dir: &str) -> (r: String)
        requires
            self@.base_path(current_dir@) is Some,
        ensures
            self@.base_path(current_dir@) == Some(r@),
    {
        match *self {
            Input::File(_, path, _, _) => paths::parent(path).unwrap(),
            Input::Expr(..) | Input::Loop(..) => current_dir.to_owned(),
        }
    }

    /// Base directory for resolving relative paths, given the directory that the program was
    /// started in: `None` for a script file without a parent directory.
    pub fn try_base_path(&self, current_dir: &str) -> (r: Option<String>)
        ensures
            text::opt_text(r) == self@.base_path(current_dir@),
    {
        let found: bool = match *self {
            Input::File(_, path, _, _) => paths::parent(path).is_some(),
            Input::Expr(..) | Input::Loop(..) => true,
        };
        if found {
            Some(self.base_path(current_dir))
        } else {
            None
        }
    }

    /// Compute the package ID for the input.  This is used as the name of the cache folder into
    /// which the Cargo package will be generated.
    pub fn compute_id(&self, deps: &Vec<(String, String)>) -> (r: Result<String, MainError>)
        ensures
            error::result_view(r) == self@.try_id(text::text_pairs(deps@)),
            r matches Ok(id) ==> id@.len() == self@.id_prefix().len() + ID_DIGEST_LEN_MAX,
    {
        let mut hashed: String = String::new();
        match *self {
            Input::File(_, path, _, _) => {
                hashed = path.to_owned();
            },
            Input::Expr(content, template) => {
                hash_deps(&mut hashed, deps);
                hashed.append("template:");
                match template {
                    Some(t) => hashed.append(t),
                    None => {},
                }
                hashed.append(";");
                hashed.append(content);
            },
            Input::Loop(content, count) => {
                hash_deps(&mut hashed, deps);
                // The flag changes the actual generated script output.
                hashed.append("count:");
                hashed.append(if count { "true;" } else { "false;" });
                hashed.append(content);
            },
        }
        assert(hashed@ =~= self@.id_text(text::text_pairs(deps@)));
        let digest: String = match digest::try_hash_str(hashed.as_str()) {
            Ok(digest) => digest,
            Err(e) => return Err(e),
        };
        let mut id: String = String::new();
        match *self {
            Input::File(name, _, _, _) => {
                id.append("file-");
                id.append(name);
                id.append("-");
            },
            Input::Expr(..) => id.append("expr-"),
            Input::Loop(..) => id.append("loop-"),
        }
        assert(id@ =~= self@.id_prefix());
        id.append(
            if STUB_HASHES {
                "stub"
            } else {
                digest.as_str().substring_char(0, ID_DIGEST_LEN_MAX)
            },
        );
        Ok(id)
    }
}

/// Appends what is hashed of a list of dependencies.
fn hash_deps(hashed: &mut String, deps: &Vec<(String, String)>)
    ensures
        final(hashed)@ == old(hashed)@ + deps_text(text::text_pairs(deps@)),
{
    let ghost all = text::text_pairs(deps@);
    let ghost start = hashed@;
    let mut i: usize = 0;
    assert(all.take(0) =~= Seq::empty());
    assert(hashed@ =~= start + deps_text(all.take(0)));
    while i < deps.len()
        invariant
            i <= deps.len(),
            all == text::text_pairs(deps@),
            hashed@ == start + deps_text(all.take(i as int)),
        decreases deps.len() - i,
    {
        hashed.append("dep=");
        hashed.append(deps[i].0.as_str());
        hashed.append("=");
        hashed.append(deps[i].1.as_str());
        hashed.append(";");
        assert(all.take(i + 1).drop_last() =~= all.take(i as int));
        assert(hashed@ =~= start + deps_text(all.take(i + 1)));
        i = i + 1;
    }
    assert(all.take(i as int) =~= all);
}

/// Whether a text has the shape of an identifier: letters, digits and underscores, the first of
/// them not a digit.
pub open spec fn is_identifier_shaped(s: Seq<char>) -> bool {
    &&& s.len() > 0
    &&& !is_digit(s[0])
    &&& forall|i: int| 0 <= i < s.len() ==> is_name_char(#[trigger] s[i])
}

/// A package name has the shape of a Rust identifier, whatever the name that it is made from.
pub proof fn package_names_are_identifiers(name: Seq<char>)
    ensures
        is_identifier_shaped(package_name_of(name)),
{
    let p = package_name_of(name);
    let kept = name.map_values(|c: char| name_char(c));
    assert forall|i: int| 0 <= i < p.len() implies is_name_char(#[trigger] p[i]) by {
        if name.len() == 0 || is_digit(name[0]) {
            if i > 0 {
                assert(p[i] == kept[i - 1]);
            }
        } else {
            assert(p[i] == kept[i]);
        }
    }
}

/// A package name is its own package name.
pub proof fn package_names_are_stable(name: Seq<char>)
    ensures
        package_name_of(package_name_of(name)) == package_name_of(name),
{
    package_names_are_identifiers(name);
    let p = package_name_of(name);
    assert(p.map_values(|c: char| name_char(c)) =~= p);
}

/// The ID of a script file depends on its name and path alone: its contents, its modification
/// time and its dependencies may change, and the package stays where it is.
pub proof fn file_id_is_fixed(
    name: Seq<char>,
    path: Seq<char>,
    content: Seq<char>,
    mtime: u128,
    deps: Seq<(Seq<char>, Seq<char>)>,
    content2: Seq<char>,
    mtime2: u128,
    deps2: Seq<(Seq<char>, Seq<char>)>,
)
    ensures
        InputView::File(name, path, content, mtime).try_id(deps) == InputView::File(
            name,
            path,
            content2,
            mtime2,
        ).try_id(deps2),
{
}

/// Inputs of different kinds never share an ID.
pub proof fn ids_tell_kinds_apart(
    name: Seq<char>,
    path: Seq<char>,
    body: Seq<char>,
    mtime: u128,
    content: Seq<char>,
    template: Option<Seq<char>>,
    content2: Seq<char>,
    count: bool,
    deps: Seq<(Seq<char>, Seq<char>)>,
    deps2: Seq<(Seq<char>, Seq<char>)>,
    deps3: Seq<(Seq<char>, Seq<char>)>,
)
    ensures
        InputView::File(name, path, body, mtime).id(deps) != InputView::Expr(content, template).id(
            deps2,
        ),
        InputView::File(name, path, body, mtime).id(deps) != InputView::Loop(content2, count).id(
            deps3,
        ),
        InputView::Expr(content, template).id(deps2) != InputView::Loop(content2, count).id(deps3),
{
    reveal_strlit("file-");
    reveal_strlit("expr-");
    reveal_strlit("loop-");
    assert(InputView::File(name, path, body, mtime).id(deps)[0] == 'f');
    assert(InputView::Expr(content, template).id(deps2)[0] == 'e');
    assert(InputView::Loop(content2, count).id(deps3)[0] == 'l');
}

/// What is hashed for a loop tells whether `--count` was given, since that changes the script.
pub proof fn loop_hash_holds_count(content: Seq<char>, deps: Seq<(Seq<char>, Seq<char>)>)
    ensures
        InputView::Loop(content, true).id_text(deps) != InputView::Loop(content, false).id_text(
            deps,
        ),
{
    reveal_strlit("true;");
    reveal_strlit("false;");
    let a = InputView::Loop(content, true).id_text(deps);
    let b = InputView::Loop(content, false).id_text(deps);
    assert(a.len() + 1 == b.len());
}

/// The order in which dependencies are given, and whether one is repeated, makes no difference
/// to the package ID.
pub proof fn id_ignores_dep_order(input: InputView, a: Seq<Seq<char>>, b: Seq<Seq<char>>)
    requires
        deps::acceptable(a),
        deps::same_deps(a, b),
    ensures
        deps::dep_list(a) is Ok,
        deps::dep_list(b) is Ok,
        input.try_id(deps::dep_list(a)->Ok_0) == input.try_id(deps::dep_list(b)->Ok_0),
{
    deps::accepted_deps(a);
    deps::deps_in_any_order(a, b);
}

} // verus!

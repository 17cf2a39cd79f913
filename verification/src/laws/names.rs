//! What a script is called, where its package is kept, and what tells packages apart.
use vstd::prelude::*;
use vstd::string::*;
use vstd::utf8::*;
use crate::digest;
use crate::error::Blame;
use crate::input::{self, InputView};
use crate::paths;
use crate::readback;

verus! {

/// A script file goes by its own name, path and modification time and has no template; expressions
/// and loops have fixed names, no path and no time, and only an expression has a template.
pub proof fn inputs_go_by_their_names(
    name: Seq<char>,
    path: Seq<char>,
    content: Seq<char>,
    modified: u128,
    template: Option<Seq<char>>,
    count: bool,
)
    ensures
        ({
            let file = InputView::File(name, path, content, modified);
            let expr = InputView::Expr(content, template);
            let each = InputView::Loop(content, count);
            &&& file.safe_name() == name && expr.safe_name() == "expr"@ && each.safe_name()
                == "loop"@
            &&& file.path() == Some(path) && expr.path() is None && each.path() is None
            &&& file.modified() == Some(modified) && expr.modified() is None
                && each.modified() is None
            &&& file.template() is None && expr.template() == template && each.template() is None
        }),
{
}

/// Relative paths start from the directory of a script file, and from the current directory where
/// the script is in no file.
pub proof fn relative_paths_start_somewhere(
    name: Seq<char>,
    path: Seq<char>,
    content: Seq<char>,
    modified: u128,
    template: Option<Seq<char>>,
    count: bool,
    current_dir: Seq<char>,
)
    ensures
        InputView::File(name, path, content, modified).base_path(current_dir)
            == paths::path_parent(path),
        InputView::Expr(content, template).base_path(current_dir) == Some(current_dir),
        InputView::Loop(content, count).base_path(current_dir) == Some(current_dir),
{
}

/// Letters, digits and underscores of a name stay in the package name, each in its place, and every
/// other character gives way to an underscore.  An underscore is put in front of a leading digit,
/// and stands alone for an empty name; nothing else is added.
pub proof fn package_names_follow_names(source: InputView, i: int)
    ensures
        ({
            let name = source.safe_name();
            let found = source.package_name();
            let extra: int = if name.len() == 0 || '0' <= name[0] <= '9' {
                1
            } else {
                0
            };
            &&& found.len() == name.len() + extra
            &&& extra == 1 ==> found[0] == '_'
            &&& 0 <= i < name.len() ==> found[i + extra] == if 'a' <= name[i] <= 'z' || 'A'
                <= name[i] <= 'Z' || '0' <= name[i] <= '9' {
                name[i]
            } else {
                '_'
            }
        }),
{
}

/// A package name is never empty, starts with a letter or an underscore, and goes on with letters,
/// digits and underscores.
pub proof fn package_names_can_be_identifiers(source: InputView, i: int)
    ensures
        ({
            let found = source.package_name();
            &&& found.len() > 0
            &&& found[0] == '_' || 'a' <= found[0] <= 'z' || 'A' <= found[0] <= 'Z'
            &&& 0 <= i < found.len() ==> found[i] == '_' || 'a' <= found[i] <= 'z' || 'A'
                <= found[i] <= 'Z' || '0' <= found[i] <= '9'
            &&& input::is_identifier_shaped(found)
        }),
{
    input::package_names_are_identifiers(source.safe_name());
}

/// What is hashed of dependencies starts with the first of them and goes on with the others.
proof fn first_dep_comes_first(
    first: (Seq<char>, Seq<char>),
    rest: Seq<(Seq<char>, Seq<char>)>,
)
    ensures
        input::deps_text(seq![first] + rest) == "dep="@ + first.0 + "="@ + first.1 + ";"@
            + input::deps_text(rest),
    decreases rest.len(),
{
    let one = "dep="@ + first.0 + "="@ + first.1 + ";"@;
    let all = seq![first] + rest;
    if rest.len() == 0 {
        assert(all.drop_last() =~= Seq::empty());
        assert(all.last() == first);
        assert(input::deps_text(all.drop_last()) =~= Seq::empty());
        assert(input::deps_text(all) =~= one + input::deps_text(rest));
    } else {
        let init = rest.drop_last();
        first_dep_comes_first(first, init);
        assert(all.drop_last() =~= seq![first] + init);
        assert(all.last() == rest.last());
        assert(input::deps_text(all) =~= one + input::deps_text(rest));
    }
}

/// What is hashed for the ID of a script file is its path, whatever else it is or depends on.
pub proof fn file_ids_hash_the_path(
    name: Seq<char>,
    path: Seq<char>,
    content: Seq<char>,
    modified: u128,
    deps: Seq<(Seq<char>, Seq<char>)>,
)
    ensures
        InputView::File(name, path, content, modified).id_text(deps) == path,
{
}

/// What is hashed for the ID of an expression without dependencies is its template and its content;
/// for that of a loop, whether it counts and its content.
pub proof fn ids_hash_the_content(content: Seq<char>, template: Option<Seq<char>>, count: bool)
    ensures
        template is None ==> InputView::Expr(content, template).id_text(Seq::empty())
            == "template:;"@ + content,
        template matches Some(t) ==> InputView::Expr(content, template).id_text(Seq::empty())
            == "template:"@ + t + ";"@ + content,
        InputView::Loop(content, count).id_text(Seq::empty()) == (if count {
            "count:true;"@
        } else {
            "count:false;"@
        }) + content,
{
    reveal_strlit("template:;");
    reveal_strlit("template:");
    reveal_strlit(";");
    reveal_strlit("count:");
    reveal_strlit("true;");
    reveal_strlit("false;");
    reveal_strlit("count:true;");
    reveal_strlit("count:false;");
    assert(input::deps_text(Seq::empty()) =~= Seq::empty());
    assert("template:"@ + Seq::empty() + ";"@ =~= "template:;"@);
    assert("count:"@ + "true;"@ =~= "count:true;"@);
    assert("count:"@ + "false;"@ =~= "count:false;"@);
    assert(InputView::Expr(content, None).id_text(Seq::empty()) =~= "template:;"@ + content);
    assert(template matches Some(t) ==> InputView::Expr(content, template).id_text(Seq::empty())
        =~= "template:"@ + t + ";"@ + content);
    assert(InputView::Loop(content, true).id_text(Seq::empty()) =~= "count:true;"@ + content);
    assert(InputView::Loop(content, false).id_text(Seq::empty()) =~= "count:false;"@ + content);
}

/// One more dependency in front adds its name and its version in front of what is hashed for the ID
/// of an expression or a loop, and changes nothing else of it.
pub proof fn ids_hash_each_dependency(
    source: InputView,
    first: (Seq<char>, Seq<char>),
    rest: Seq<(Seq<char>, Seq<char>)>,
)
    requires
        !(source is File),
    ensures
        source.id_text(seq![first] + rest) == "dep="@ + first.0 + "="@ + first.1 + ";"@
            + source.id_text(rest),
{
    first_dep_comes_first(first, rest);
    let one = "dep="@ + first.0 + "="@ + first.1 + ";"@;
    assert(source.id_text(seq![first] + rest) =~= one + source.id_text(rest));
}

/// Of two texts that go on differently after parts without a stop, the parts are the same where the
/// whole is.
proof fn parts_end_at_the_stop(
    a: Seq<char>,
    b: Seq<char>,
    stop: char,
    u: Seq<char>,
    v: Seq<char>,
)
    requires
        !a.contains(stop),
        !b.contains(stop),
        a + (seq![stop] + u) == b + (seq![stop] + v),
    ensures
        a == b,
        u == v,
{
    let l = a + (seq![stop] + u);
    let r = b + (seq![stop] + v);
    if a.len() < b.len() {
        assert(l[a.len() as int] == stop);
        assert(r[a.len() as int] == b[a.len() as int]);
        assert(b.contains(b[a.len() as int]));
    } else if b.len() < a.len() {
        assert(r[b.len() as int] == stop);
        assert(l[b.len() as int] == a[b.len() as int]);
        assert(a.contains(a[b.len() as int]));
    }
    assert(a =~= l.take(a.len() as int));
    assert(b =~= r.take(b.len() as int));
    assert(u =~= l.skip(a.len() + 1int));
    assert(v =~= r.skip(b.len() + 1int));
}

/// Whether the names and versions of dependencies can be told from what stands between them when
/// they are hashed: no name holds an equals sign, as none does that comes of splitting, and no
/// version holds a semicolon.
pub open spec fn plainly_listed(deps: Seq<(Seq<char>, Seq<char>)>) -> bool {
    forall|i: int|
        0 <= i < deps.len() ==> !(#[trigger] deps[i]).0.contains('=') && !deps[i].1.contains(';')
}

/// Different dependencies of one kind of script are hashed differently, whatever follows them.
proof fn dependencies_read_back(
    deps: Seq<(Seq<char>, Seq<char>)>,
    others: Seq<(Seq<char>, Seq<char>)>,
    u: Seq<char>,
    v: Seq<char>,
)
    requires
        plainly_listed(deps),
        plainly_listed(others),
        u.len() > 0 && u[0] != 'd',
        v.len() > 0 && v[0] != 'd',
        input::deps_text(deps) + u == input::deps_text(others) + v,
    ensures
        deps == others,
        u == v,
    decreases deps.len(),
{
    reveal_strlit("dep=");
    reveal_strlit("=");
    reveal_strlit(";");
    let l = input::deps_text(deps) + u;
    let r = input::deps_text(others) + v;
    if deps.len() > 0 {
        dep_in_parts(deps, u);
        assert(l[0] == 'd');
    } else {
        assert(l =~= u);
    }
    if others.len() > 0 {
        dep_in_parts(others, v);
        assert(r[0] == 'd');
    } else {
        assert(r =~= v);
    }
    if deps.len() == 0 {
        assert(deps =~= others);
    } else {
        let a = deps.drop_first();
        let b = others.drop_first();
        let ra = input::deps_text(a) + u;
        let rb = input::deps_text(b) + v;
        let va = deps[0].1 + (seq![';'] + ra);
        let vb = others[0].1 + (seq![';'] + rb);
        readback::same_rest(
            "dep="@,
            deps[0].0 + (seq!['='] + va),
            others[0].0 + (seq!['='] + vb),
        );
        parts_end_at_the_stop(deps[0].0, others[0].0, '=', va, vb);
        parts_end_at_the_stop(deps[0].1, others[0].1, ';', ra, rb);
        assert forall|i: int| 0 <= i < a.len() implies !(#[trigger] a[i]).0.contains('=')
            && !a[i].1.contains(';') by {
            assert(a[i] == deps[i + 1]);
        }
        assert forall|i: int| 0 <= i < b.len() implies !(#[trigger] b[i]).0.contains('=')
            && !b[i].1.contains(';') by {
            assert(b[i] == others[i + 1]);
        }
        dependencies_read_back(a, b, u, v);
        assert(deps =~= seq![deps[0]] + a);
        assert(others =~= seq![others[0]] + b);
    }
}

/// What is hashed of dependencies, part by part, from the first on.
proof fn dep_in_parts(deps: Seq<(Seq<char>, Seq<char>)>, u: Seq<char>)
    requires
        deps.len() > 0,
    ensures
        input::deps_text(deps) + u == "dep="@ + (deps[0].0 + (seq!['='] + (deps[0].1 + (seq![';'] + (
        input::deps_text(deps.drop_first()) + u))))),
{
    reveal_strlit("=");
    reveal_strlit(";");
    let rest = deps.drop_first();
    assert(deps =~= seq![deps[0]] + rest);
    first_dep_comes_first(deps[0], rest);
    assert("="@ =~= seq!['=']);
    assert(";"@ =~= seq![';']);
    assert(input::deps_text(deps) + u =~= "dep="@ + (deps[0].0 + (seq!['='] + (deps[0].1 + (
    seq![';'] + (input::deps_text(rest) + u))))));
}

/// What is hashed for the ID of a loop tells its dependencies, whether it counts, and its content:
/// loops that differ in any of these are hashed differently.
pub proof fn loops_are_hashed_apart(
    content: Seq<char>,
    count: bool,
    deps: Seq<(Seq<char>, Seq<char>)>,
    content2: Seq<char>,
    count2: bool,
    deps2: Seq<(Seq<char>, Seq<char>)>,
)
    requires
        plainly_listed(deps),
        plainly_listed(deps2),
        InputView::Loop(content, count).id_text(deps) == InputView::Loop(content2, count2).id_text(
            deps2,
        ),
    ensures
        deps == deps2,
        count == count2,
        content == content2,
{
    reveal_strlit("count:");
    reveal_strlit("true;");
    reveal_strlit("false;");
    let flag = |c: bool| {
        if c {
            "true;"@
        } else {
            "false;"@
        }
    };
    let u = "count:"@ + flag(count) + content;
    let v = "count:"@ + flag(count2) + content2;
    assert(InputView::Loop(content, count).id_text(deps) =~= input::deps_text(deps) + u);
    assert(InputView::Loop(content2, count2).id_text(deps2) =~= input::deps_text(deps2) + v);
    dependencies_read_back(deps, deps2, u, v);
    assert(u[6] == if count {
        't'
    } else {
        'f'
    });
    assert(v[6] == if count2 {
        't'
    } else {
        'f'
    });
    readback::same_rest("count:"@ + flag(count), content, content2);
}

/// What is hashed for the ID of an expression tells its dependencies, its template and its content,
/// as long as no template holds the semicolon that ends it; no template is hashed like an empty one.
pub proof fn expressions_are_hashed_apart(
    content: Seq<char>,
    template: Option<Seq<char>>,
    deps: Seq<(Seq<char>, Seq<char>)>,
    content2: Seq<char>,
    template2: Option<Seq<char>>,
    deps2: Seq<(Seq<char>, Seq<char>)>,
)
    requires
        plainly_listed(deps),
        plainly_listed(deps2),
        template matches Some(t) ==> !t.contains(';'),
        template2 matches Some(t) ==> !t.contains(';'),
        InputView::Expr(content, template).id_text(deps) == InputView::Expr(
            content2,
            template2,
        ).id_text(deps2),
    ensures
        deps == deps2,
        template == template2 || (template matches Some(t) ==> t.len() == 0) && (
        template2 matches Some(t) ==> t.len() == 0),
        content == content2,
{
    reveal_strlit("template:");
    reveal_strlit(";");
    let t = match template {
        Some(t) => t,
        None => Seq::empty(),
    };
    let t2 = match template2 {
        Some(t) => t,
        None => Seq::empty(),
    };
    let u = "template:"@ + (t + (seq![';'] + content));
    let v = "template:"@ + (t2 + (seq![';'] + content2));
    assert(InputView::Expr(content, template).id_text(deps) =~= input::deps_text(deps) + u);
    assert(InputView::Expr(content2, template2).id_text(deps2) =~= input::deps_text(deps2) + v);
    dependencies_read_back(deps, deps2, u, v);
    readback::same_rest("template:"@, t + (seq![';'] + content), t2 + (seq![';'] + content2));
    parts_end_at_the_stop(t, t2, ';', content, content2);
}

/// Expressions with the same dependencies and the same template, and loops with the same
/// dependencies that both count or both do not, are hashed the same only where their content is the
/// same, without any exception.
pub proof fn contents_are_hashed_apart(
    content: Seq<char>,
    content2: Seq<char>,
    template: Option<Seq<char>>,
    count: bool,
    deps: Seq<(Seq<char>, Seq<char>)>,
)
    requires
        content != content2,
    ensures
        InputView::Expr(content, template).id_text(deps) != InputView::Expr(
            content2,
            template,
        ).id_text(deps),
        InputView::Loop(content, count).id_text(deps) != InputView::Loop(content2, count).id_text(
            deps,
        ),
{
    let e = InputView::Expr(Seq::empty(), template).id_text(deps);
    let l = InputView::Loop(Seq::empty(), count).id_text(deps);
    assert(InputView::Expr(content, template).id_text(deps) =~= e + content);
    assert(InputView::Expr(content2, template).id_text(deps) =~= e + content2);
    assert(InputView::Loop(content, count).id_text(deps) =~= l + content);
    assert(InputView::Loop(content2, count).id_text(deps) =~= l + content2);
    if e + content == e + content2 {
        readback::same_rest(e, content, content2);
    }
    if l + content == l + content2 {
        readback::same_rest(l, content, content2);
    }
}

/// A package ID is the kind of the script, for a script file its name, and the first digits of the
/// digest of what is hashed for it, as many as an ID has room for.
pub proof fn ids_name_the_kind_and_the_digest(
    name: Seq<char>,
    path: Seq<char>,
    content: Seq<char>,
    modified: u128,
    template: Option<Seq<char>>,
    count: bool,
    deps: Seq<(Seq<char>, Seq<char>)>,
)
    ensures
        ({
            let file = InputView::File(name, path, content, modified);
            let expr = InputView::Expr(content, template);
            let each = InputView::Loop(content, count);
            let d1 = digest::sha1_hex(file.id_text(deps));
            let d2 = digest::sha1_hex(expr.id_text(deps));
            let d3 = digest::sha1_hex(each.id_text(deps));
            &&& d1.len() >= 24 ==> file.id(deps) == "file-"@ + name + "-"@ + d1.take(24)
            &&& d2.len() >= 24 ==> expr.id(deps) == "expr-"@ + d2.take(24)
            &&& d3.len() >= 24 ==> each.id(deps) == "loop-"@ + d3.take(24)
        }),
{
    let d1 = digest::sha1_hex(InputView::File(name, path, content, modified).id_text(deps));
    let d2 = digest::sha1_hex(InputView::Expr(content, template).id_text(deps));
    let d3 = digest::sha1_hex(InputView::Loop(content, count).id_text(deps));
    assert(d1.len() == 24 ==> d1.take(24) =~= d1);
    assert(d2.len() == 24 ==> d2.take(24) =~= d2);
    assert(d3.len() == 24 ==> d3.take(24) =~= d3);
}

/// An ID is given exactly where what is hashed for it can be counted in bits; otherwise there is an
/// error, which does not blame the user.
pub proof fn when_ids_are_given(source: InputView, deps: Seq<(Seq<char>, Seq<char>)>)
    ensures
        encode_utf8(source.id_text(deps)).len() <= 0x1fff_ffff_ffff_ffff ==> source.try_id(deps)
            == Ok::<Seq<char>, crate::error::MainErrorView>(source.id(deps)),
        encode_utf8(source.id_text(deps)).len() > 0x1fff_ffff_ffff_ffff ==> (source.try_id(
            deps,
        ) matches Err(e) && e.blame == Blame::Internal && e.message == "text is too long to hash"@),
{
}

/// What can be hashed is every text of so few bytes that they can be counted in bits.
pub proof fn what_can_be_hashed(s: Seq<char>)
    ensures
        digest::digestible(s) <==> encode_utf8(s).len() * 8 < 0x1_0000_0000_0000_0000,
        digest::too_long().blame == Blame::Internal,
        digest::too_long().message == "text is too long to hash"@,
{
}

/// Everything is kept under the name that goes with it, in the directory that goes with it.
pub proof fn things_are_kept_in_their_places(dir: Seq<char>)
    ensures
        paths::script_cache(dir) == paths::path_join(dir, "scripts"@),
        paths::binary_cache(dir) == paths::path_join(dir, "bin"@),
        paths::pkg_metadata_path(dir) == paths::path_join(dir, "metadata.json"@),
        paths::meta_hash_path(dir) == paths::path_join(dir, "target.meta-hash"@),
        paths::exe_path_file(dir) == paths::path_join(dir, "target.exe_path"@),
        paths::no_direct_exe().blame == Blame::Internal,
        paths::no_direct_exe().message == "tried to get executable path for test/bench build"@,
{
}

/// A script is looked for first under the path as given.  Where that has an extension, it is looked
/// for nowhere else; otherwise with the extensions of scripts, the one of its own first.
pub proof fn where_scripts_are_looked_for(path: Seq<char>)
    ensures
        paths::script_candidates(path).len() > 0,
        paths::script_candidates(path)[0] == path,
        paths::path_extension(path) is Some ==> paths::script_candidates(path).len() == 1,
        paths::path_extension(path) is None ==> {
            &&& paths::script_candidates(path).len() == 3
            &&& paths::script_candidates(path)[1] == paths::path_with_extension(path, "crs"@)
            &&& paths::script_candidates(path)[2] == paths::path_with_extension(path, "rs"@)
        },
        paths::path_stem(path) matches Some(stem) ==> paths::script_name_of(path) == stem,
        paths::path_stem(path) is None ==> paths::script_name_of(path) == "unknown"@,
{
}

} // verus!

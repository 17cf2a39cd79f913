//! What becomes of the dependencies and the unstable features that the user asks for.
use vstd::prelude::*;
use vstd::relations::*;
use vstd::string::*;
use crate::deps;
use crate::error::{Blame, MainErrorView};
use crate::text;

verus! {

/// A dependency is its name, an equals sign and its version, put together again.  The name holds no
/// equals sign; the version may.
pub proof fn split_deps_are_whole(dep: Seq<char>)
    ensures
        !deps::dep_name(dep).contains('='),
        dep.contains('=') ==> deps::dep_name(dep) + "="@ + deps::dep_version(dep) == dep,
        !dep.contains('=') ==> deps::dep_name(dep) == dep && deps::dep_version(dep) == "*"@,
        deps::dep_pair(dep) == (deps::dep_name(dep), deps::dep_version(dep)),
{
    reveal_strlit("=");
    name_ends_at_equals(dep);
    let n = deps::name_len(dep) as int;
    let name = deps::dep_name(dep);
    assert forall|i: int| 0 <= i < name.len() implies name[i] != '=' by {
        assert(name[i] == dep[i]);
    }
    if dep.contains('=') {
        let k = choose|k: int| 0 <= k < dep.len() && dep[k] == '=';
        assert(n < dep.len());
        assert(name + "="@ + deps::dep_version(dep) =~= dep);
    } else {
        if n < dep.len() {
            assert(dep.contains(dep[n]));
        }
        assert(name =~= dep);
    }
}

/// A name ends at the first equals sign, or at the end.
proof fn name_ends_at_equals(dep: Seq<char>)
    ensures
        deps::name_len(dep) <= dep.len(),
        forall|i: int| 0 <= i < deps::name_len(dep) ==> #[trigger] dep[i] != '=',
        deps::name_len(dep) < dep.len() ==> dep[deps::name_len(dep) as int] == '=',
    decreases dep.len(),
{
    if dep.len() > 0 && dep[0] != '=' {
        let rest = dep.drop_first();
        name_ends_at_equals(rest);
        assert forall|i: int| 0 <= i < deps::name_len(dep) implies #[trigger] dep[i] != '=' by {
            if i > 0 {
                assert(dep[i] == rest[i - 1]);
            }
        }
        if deps::name_len(dep) < dep.len() {
            assert(dep[deps::name_len(dep) as int] == rest[deps::name_len(rest) as int]);
        }
    }
}

/// A name and a version that are put together with an equals sign are what the dependency is split
/// into, if the name holds none.
pub proof fn joined_deps_split_again(name: Seq<char>, version: Seq<char>)
    requires
        !name.contains('='),
    ensures
        deps::dep_pair(name + "="@ + version) == (name, version),
{
    reveal_strlit("=");
    let dep = name + "="@ + version;
    let n = deps::name_len(dep) as int;
    name_ends_at_equals(dep);
    assert(dep[name.len() as int] == '=');
    if n < name.len() {
        assert(dep[n] == name[n]);
        assert(name.contains(name[n]));
    }
    assert(n == name.len());
    assert(deps::dep_name(dep) =~= name);
    assert(deps::dep_version(dep) =~= version);
}

/// Dependencies are accepted exactly where each has a name and a version that are not empty, and no
/// two of them ask for different versions of one package.
pub proof fn when_dependencies_are_accepted(asked: Seq<Seq<char>>)
    ensures
        deps::dep_list(asked) is Ok <==> {
            &&& forall|i: int|
                0 <= i < asked.len() ==> deps::dep_name(#[trigger] asked[i]).len() > 0
                    && deps::dep_version(asked[i]).len() > 0
            &&& forall|i: int, j: int|
                0 <= i < asked.len() && 0 <= j < asked.len() && deps::dep_name(#[trigger] asked[i])
                    == deps::dep_name(#[trigger] asked[j]) ==> deps::dep_version(asked[i])
                    == deps::dep_version(asked[j])
        },
{
    deps::accepted_deps(asked);
    if deps::acceptable(asked) {
        assert forall|i: int, j: int|
            0 <= i < asked.len() && 0 <= j < asked.len() && deps::dep_name(#[trigger] asked[i])
                == deps::dep_name(#[trigger] asked[j]) implies deps::dep_version(asked[i])
            == deps::dep_version(asked[j]) by {
            if i < j {
            } else if j < i {
                assert(deps::dep_name(asked[j]) == deps::dep_name(asked[i]));
            }
        }
    }
}

/// What comes of accepted dependencies is a list with each package that is asked for, in the version
/// that is asked for, and no other, in strictly growing order of the names, so that none is there
/// twice.
pub proof fn accepted_dependencies_are_all_there(asked: Seq<Seq<char>>)
    requires
        deps::dep_list(asked) is Ok,
    ensures
        ({
            let list = deps::dep_list(asked)->Ok_0;
            &&& forall|i: int, j: int|
                0 <= i < j < list.len() ==> text::text_lt((#[trigger] list[i]).0, (
                #[trigger] list[j]).0)
            &&& forall|i: int|
                0 <= i < asked.len() ==> list.contains(
                    (deps::dep_name(#[trigger] asked[i]), deps::dep_version(asked[i])),
                )
            &&& forall|k: int|
                0 <= k < list.len() ==> exists|i: int|
                    0 <= i < asked.len() && #[trigger] list[k] == (
                        deps::dep_name(#[trigger] asked[i]),
                        deps::dep_version(asked[i]),
                    )
        }),
{
    deps::accepted_deps(asked);
    deps::accepted_deps_are_listed(asked);
    let m = deps::dep_map(asked)->Ok_0;
    let list = deps::dep_list(asked)->Ok_0;
    assert(deps::lists(list, m));
    assert forall|i: int| 0 <= i < asked.len() implies list.contains(
        (deps::dep_name(#[trigger] asked[i]), deps::dep_version(asked[i])),
    ) by {
        let name = deps::dep_name(asked[i]);
        assert(m.contains_key(name));
        let k = choose|k: int| 0 <= k < list.len() && (#[trigger] list[k]).0 == name;
        assert(list[k] == (name, deps::dep_version(asked[i])));
    }
    assert forall|k: int| 0 <= k < list.len() implies exists|i: int|
        0 <= i < asked.len() && #[trigger] list[k] == (
            deps::dep_name(#[trigger] asked[i]),
            deps::dep_version(asked[i]),
        ) by {
        let name = list[k].0;
        assert(m.contains_key(name));
        let i = choose|i: int| 0 <= i < asked.len() && deps::dep_name(#[trigger] asked[i]) == name;
        assert(list[k] == (deps::dep_name(asked[i]), deps::dep_version(asked[i])));
    }
}

/// The first dependency that cannot be accepted decides the error, which blames the user: that it
/// has no name, that it has no version, or that an earlier one asks for another version.  What comes
/// after it does not matter.
pub proof fn first_refused_dependency_is_reported(asked: Seq<Seq<char>>, n: int, i: int)
    requires
        0 <= n < asked.len(),
        deps::dep_list(asked.take(n)) is Ok,
    ensures
        ({
            let name = deps::dep_name(asked[n]);
            let version = deps::dep_version(asked[n]);
            &&& name.len() == 0 ==> deps::dep_list(asked) == Err::<
                Seq<(Seq<char>, Seq<char>)>,
                MainErrorView,
            >(
                MainErrorView {
                    blame: Blame::Human,
                    message: "cannot have empty dependency package name"@,
                },
            )
            &&& name.len() > 0 && version.len() == 0 ==> deps::dep_list(asked) == Err::<
                Seq<(Seq<char>, Seq<char>)>,
                MainErrorView,
            >(
                MainErrorView {
                    blame: Blame::Human,
                    message: "cannot have empty dependency version"@,
                },
            )
            &&& name.len() > 0 && version.len() > 0 && 0 <= i < n && deps::dep_name(asked[i]) == name
                && deps::dep_version(asked[i]) != version ==> deps::dep_list(asked) == Err::<
                Seq<(Seq<char>, Seq<char>)>,
                MainErrorView,
            >(
                MainErrorView {
                    blame: Blame::Human,
                    message: "conflicting versions for dependency '"@ + name + "': '"@
                        + deps::dep_version(asked[i]) + "', '"@ + version + "'"@,
                },
            )
        }),
{
    let init = asked.take(n);
    let upto = asked.take(n + 1);
    assert(upto.drop_last() =~= init);
    assert(upto.last() == asked[n]);
    deps::accepted_deps(init);
    if 0 <= i < n {
        assert(init[i] == asked[i]);
    }
    if deps::dep_map(upto) is Err {
        errors_stay(asked, n + 1);
    }
}

/// What is refused stays refused for the same reason when more is asked for.
pub proof fn errors_stay(asked: Seq<Seq<char>>, n: int)
    requires
        0 <= n <= asked.len(),
        deps::dep_list(asked.take(n)) is Err,
    ensures
        deps::dep_list(asked) == deps::dep_list(asked.take(n)),
    decreases asked.len() - n,
{
    if n < asked.len() {
        assert(asked.take(n + 1).drop_last() =~= asked.take(n));
        errors_stay(asked, n + 1);
    } else {
        assert(asked.take(n) =~= asked);
    }
}

/// Texts are ordered by the first place where they differ: by the greater character there, or by
/// which of them goes on.
pub proof fn texts_are_ordered_like_words(
    start: Seq<char>,
    a: char,
    b: char,
    rest_a: Seq<char>,
    rest_b: Seq<char>,
)
    ensures
        !text::text_lt(start, start),
        text::text_lt(start, start + seq![a] + rest_a),
        !text::text_lt(start + seq![a] + rest_a, start),
        a < b ==> text::text_lt(start + seq![a] + rest_a, start + seq![b] + rest_b),
        a > b ==> !text::text_lt(start + seq![a] + rest_a, start + seq![b] + rest_b),
{
    let x = seq![a] + rest_a;
    let y = seq![b] + rest_b;
    assert(start + seq![a] + rest_a =~= start + x);
    assert(start + seq![b] + rest_b =~= start + y);
    assert(start + Seq::<char>::empty() =~= start);
    same_start_is_skipped(start, Seq::empty(), x);
    same_start_is_skipped(start, x, Seq::empty());
    same_start_is_skipped(start, x, y);
    text::text_lt_irreflexive(start);
}

/// The order of texts does not depend on a start that they share.
proof fn same_start_is_skipped(start: Seq<char>, x: Seq<char>, y: Seq<char>)
    ensures
        text::text_lt(start + x, start + y) == text::text_lt(x, y),
    decreases start.len(),
{
    if start.len() == 0 {
        assert(start + x =~= x);
        assert(start + y =~= y);
    } else {
        let rest = start.drop_first();
        same_start_is_skipped(rest, x, y);
        assert((start + x).drop_first() =~= rest + x);
        assert((start + y).drop_first() =~= rest + y);
    }
}

/// There is a line in the prelude for each unstable feature, as often as it is asked for, that
/// switches it on, and no other line, and none stands after a greater one.
pub proof fn features_are_switched_on(features: Seq<Seq<char>>)
    ensures
        ({
            let lines = deps::prelude_list(features);
            &&& lines.len() == features.len()
            &&& lines.to_multiset() == features.map_values(
                |f: Seq<char>| "#![feature("@ + f + ")]"@,
            ).to_multiset()
            &&& forall|i: int, j: int|
                0 <= i < j < lines.len() ==> !text::text_lt(
                    #[trigger] lines[j],
                    #[trigger] lines[i],
                )
        }),
{
    deps::text_le_total();
    let items = features.map_values(|f: Seq<char>| deps::feature_item(f));
    let lines = deps::prelude_list(features);
    let le = deps::text_le();
    items.lemma_sort_by_ensures(le);
    assert(items =~= features.map_values(|f: Seq<char>| "#![feature("@ + f + ")]"@));
    assert(lines.len() == lines.to_multiset().len()) by {
        broadcast use vstd::seq_lib::group_to_multiset_ensures;

    }
    assert(items.len() == items.to_multiset().len()) by {
        broadcast use vstd::seq_lib::group_to_multiset_ensures;

    }
    assert forall|i: int, j: int| 0 <= i < j < lines.len() implies !text::text_lt(
        #[trigger] lines[j],
        #[trigger] lines[i],
    ) by {
        assert(le(lines[i], lines[j]));
    }
}

} // verus!

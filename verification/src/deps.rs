//! The dependencies and the prelude of a script, in the order in which they are hashed.
use vstd::prelude::*;
use vstd::relations::*;
use vstd::seq_lib::*;
use vstd::string::*;
use crate::error::{self, MainError, MainErrorView};
use crate::text;

verus! {

/// Where the name ends in a dependency as the user writes it: at the first equals sign, or at
/// the end.
pub open spec fn name_len(dep: Seq<char>) -> nat
    decreases dep.len(),
{
    if dep.len() == 0 || dep[0] == '=' {
        0
    } else {
        1 + name_len(dep.drop_first())
    }
}

/// The package that a dependency names.
pub open spec fn dep_name(dep: Seq<char>) -> Seq<char> {
    dep.take(name_len(dep) as int)
}

/// The version that a dependency asks for: what follows the first equals sign, or any version
/// where there is none.
pub open spec fn dep_version(dep: Seq<char>) -> Seq<char> {
    if name_len(dep) < dep.len() {
        dep.skip(name_len(dep) + 1int)
    } else {
        "*"@
    }
}

/// The name and the version of a dependency.
pub open spec fn dep_pair(dep: Seq<char>) -> (Seq<char>, Seq<char>) {
    (dep_name(dep), dep_version(dep))
}

/// The error for a dependency without a name.
pub open spec fn empty_name() -> MainErrorView {
    error::human("cannot have empty dependency package name"@)
}

/// The error for a dependency without a version.
pub open spec fn empty_version() -> MainErrorView {
    error::human("cannot have empty dependency version"@)
}

/// The error for a dependency that is asked for in two versions.
pub open spec fn conflict(name: Seq<char>, existing: Seq<char>, version: Seq<char>) -> MainErrorView {
    error::human(
        "conflicting versions for dependency '"@ + name + "': '"@ + existing + "', '"@ + version
            + "'"@,
    )
}

/// The versions of the packages that a list of dependencies names, or the error for the first
/// dependency that is not accepted.
pub open spec fn dep_map(deps: Seq<Seq<char>>) -> Result<
    Map<Seq<char>, Seq<char>>,
    MainErrorView,
>
    decreases deps.len(),
{
    if deps.len() == 0 {
        Ok(Map::empty())
    } else {
        match dep_map(deps.drop_last()) {
            Err(e) => Err(e),
            Ok(m) => {
                let (name, version) = dep_pair(deps.last());
                if name.len() == 0 {
                    Err(empty_name())
                } else if version.len() == 0 {
                    Err(empty_version())
                } else if m.contains_key(name) && m[name] != version {
                    Err(conflict(name, m[name], version))
                } else {
                    Ok(m.insert(name, version))
                }
            },
        }
    }
}

/// Whether a list holds the entries of a map, each once, in the order of their names.
pub open spec fn lists(s: Seq<(Seq<char>, Seq<char>)>, m: Map<Seq<char>, Seq<char>>) -> bool {
    &&& forall|i: int, j: int|
        0 <= i < j < s.len() ==> text::text_lt((#[trigger] s[i]).0, (#[trigger] s[j]).0)
    &&& forall|i: int|
        0 <= i < s.len() ==> m.contains_key((#[trigger] s[i]).0) && m[s[i].0] == s[i].1
    &&& forall|name: Seq<char>| #[trigger]
        m.contains_key(name) ==> exists|i: int| 0 <= i < s.len() && (#[trigger] s[i]).0 == name
}

/// The entries of a map in the order of their names.
pub open spec fn listing(m: Map<Seq<char>, Seq<char>>) -> Seq<(Seq<char>, Seq<char>)> {
    choose|s: Seq<(Seq<char>, Seq<char>)>| lists(s, m)
}

/// The packages that a list of dependencies names with their versions, in the order of the
/// names, or the error for the first dependency that is not accepted.
pub open spec fn dep_list(deps: Seq<Seq<char>>) -> Result<
    Seq<(Seq<char>, Seq<char>)>,
    MainErrorView,
> {
    match dep_map(deps) {
        Ok(m) => Ok(listing(m)),
        Err(e) => Err(e),
    }
}

/// A map is listed in one way only.
pub proof fn lists_unique(
    s: Seq<(Seq<char>, Seq<char>)>,
    t: Seq<(Seq<char>, Seq<char>)>,
    m: Map<Seq<char>, Seq<char>>,
)
    requires
        lists(s, m),
        lists(t, m),
    ensures
        s == t,
    decreases s.len(),
{
    if s.len() == 0 {
        if t.len() > 0 {
            assert(m.contains_key(t[0].0));
        }
        assert(s =~= t);
    } else {
        assert(m.contains_key(s[0].0));
        let k = choose|k: int| 0 <= k < t.len() && (#[trigger] t[k]).0 == s[0].0;
        assert(m.contains_key(t[0].0));
        let l = choose|l: int| 0 <= l < s.len() && (#[trigger] s[l]).0 == t[0].0;
        if k > 0 && l > 0 {
            text::text_lt_transitive(t[0].0, t[k].0, s[l].0);
            text::text_lt_irreflexive(t[0].0);
        }
        let name = s[0].0;
        assert(s[0] == t[0]);
        let s1 = s.drop_first();
        let t1 = t.drop_first();
        let m1 = m.remove(name);
        lists_rest(s, m);
        lists_rest(t, m);
        lists_unique(s1, t1, m1);
        assert(s =~= seq![s[0]] + s1);
        assert(t =~= seq![t[0]] + t1);
    }
}

/// Without its first entry a listing lists the map without that name.
proof fn lists_rest(s: Seq<(Seq<char>, Seq<char>)>, m: Map<Seq<char>, Seq<char>>)
    requires
        lists(s, m),
        s.len() > 0,
    ensures
        lists(s.drop_first(), m.remove(s[0].0)),
{
    let s1 = s.drop_first();
    let m1 = m.remove(s[0].0);
    assert forall|i: int| 0 <= i < s1.len() implies m1.contains_key((#[trigger] s1[i]).0)
        && m1[s1[i].0] == s1[i].1 by {
        assert(s1[i] == s[i + 1]);
        text::text_lt_irreflexive(s[0].0);
    }
    assert forall|name: Seq<char>| #[trigger] m1.contains_key(name) implies exists|i: int|
        0 <= i < s1.len() && (#[trigger] s1[i]).0 == name by {
        assert(m.contains_key(name));
        let i = choose|i: int| 0 <= i < s.len() && (#[trigger] s[i]).0 == name;
        assert(s1[i - 1] == s[i]);
    }
}

/// A new name goes in front of the first name that is not before it.
proof fn lists_insert(
    s: Seq<(Seq<char>, Seq<char>)>,
    m: Map<Seq<char>, Seq<char>>,
    at: int,
    name: Seq<char>,
    version: Seq<char>,
)
    requires
        lists(s, m),
        0 <= at <= s.len(),
        forall|i: int| 0 <= i < at ==> text::text_lt((#[trigger] s[i]).0, name),
        at < s.len() ==> !text::text_lt(s[at].0, name) && s[at].0 != name,
    ensures
        !m.contains_key(name),
        lists(s.insert(at, (name, version)), m.insert(name, version)),
{
    let t = s.insert(at, (name, version));
    let n = m.insert(name, version);
    if at < s.len() {
        text::text_lt_total(s[at].0, name);
    }
    assert forall|i: int| at <= i < s.len() implies text::text_lt(name, (#[trigger] s[i]).0) by {
        if i > at {
            text::text_lt_transitive(name, s[at].0, s[i].0);
        }
    }
    text::text_lt_irreflexive(name);
    assert forall|i: int, j: int| 0 <= i < j < t.len() implies text::text_lt(
        (#[trigger] t[i]).0,
        (#[trigger] t[j]).0,
    ) by {
        if i < at && j > at {
            text::text_lt_transitive(t[i].0, name, t[j].0);
        }
    }
    assert forall|x: Seq<char>| #[trigger] n.contains_key(x) implies exists|i: int|
        0 <= i < t.len() && (#[trigger] t[i]).0 == x by {
        if x == name {
            assert(t[at].0 == name);
        } else {
            assert(m.contains_key(x));
            let i = choose|i: int| 0 <= i < s.len() && (#[trigger] s[i]).0 == x;
            if i < at {
                assert(t[i] == s[i]);
            } else {
                assert(t[i + 1] == s[i]);
            }
        }
    }
}

/// Where a new name goes in a listing.
spec fn place(s: Seq<(Seq<char>, Seq<char>)>, name: Seq<char>) -> int
    decreases s.len(),
{
    if s.len() == 0 || !text::text_lt(s[0].0, name) {
        0
    } else {
        1 + place(s.drop_first(), name)
    }
}

/// Everything in front of its place comes before a new name, and what is at it does not.
proof fn place_divides(s: Seq<(Seq<char>, Seq<char>)>, name: Seq<char>)
    ensures
        0 <= place(s, name) <= s.len(),
        forall|i: int| 0 <= i < place(s, name) ==> text::text_lt((#[trigger] s[i]).0, name),
        place(s, name) < s.len() ==> !text::text_lt(s[place(s, name)].0, name),
    decreases s.len(),
{
    if s.len() > 0 && text::text_lt(s[0].0, name) {
        let rest = s.drop_first();
        place_divides(rest, name);
        assert forall|i: int| 0 <= i < place(s, name) implies text::text_lt(
            (#[trigger] s[i]).0,
            name,
        ) by {
            if i > 0 {
                assert(s[i] == rest[i - 1]);
            }
        }
        if place(s, name) < s.len() {
            assert(s[place(s, name)] == rest[place(rest, name)]);
        }
    }
}

/// The packages that an accepted list of dependencies names are listed once each, in the order
/// of their names.
pub proof fn accepted_deps_are_listed(deps: Seq<Seq<char>>)
    ensures
        dep_map(deps) matches Ok(m) ==> lists(listing(m), m),
    decreases deps.len(),
{
    if dep_map(deps) is Ok {
        let m = dep_map(deps)->Ok_0;
        if deps.len() == 0 {
            assert(lists(Seq::empty(), m));
        } else {
            let before = dep_map(deps.drop_last())->Ok_0;
            accepted_deps_are_listed(deps.drop_last());
            let s = listing(before);
            let (name, version) = dep_pair(deps.last());
            let at = place(s, name);
            place_divides(s, name);
            if at < s.len() && s[at].0 == name {
                assert(m =~= before);
                assert(lists(s, m));
            } else {
                lists_insert(s, before, at, name, version);
                assert(lists(s.insert(at, (name, version)), m));
            }
        }
    }
}

/// Splits a dependency as the user writes it into the name and the version of the package.
pub fn split_dep(dep: &str) -> (r: (String, String))
    ensures
        (r.0@, r.1@) == dep_pair(dep@),
{
    let chars: Vec<char> = text::chars_of(dep);
    let mut name: String = String::new();
    let mut i: usize = 0;
    assert(chars@.skip(0) =~= chars@);
    while i < chars.len() && chars[i] != '='
        invariant
            i <= chars.len(),
            chars@ == dep@,
            name@ == dep@.take(i as int),
            name_len(dep@) == i + name_len(dep@.skip(i as int)),
        decreases chars.len() - i,
    {
        assert(dep@.skip(i as int).drop_first() =~= dep@.skip(i + 1));
        name.push(chars[i]);
        assert(name@ =~= dep@.take(i + 1));
        i = i + 1;
    }
    assert(name_len(dep@) == i);
    if i == chars.len() {
        return (name, "*".to_owned());
    }
    let mut version: String = String::new();
    let start: usize = i + 1;
    i = start;
    while i < chars.len()
        invariant
            start <= i <= chars.len(),
            chars@ == dep@,
            version@ == dep@.subrange(start as int, i as int),
        decreases chars.len() - i,
    {
        version.push(chars[i]);
        assert(version@ =~= dep@.subrange(start as int, i + 1));
        i = i + 1;
    }
    assert(version@ =~= dep@.skip(start as int));
    (name, version)
}

/// What a list of dependencies comes to, over views.
pub open spec fn deps_view(r: Result<Vec<(String, String)>, MainError>) -> Result<
    Seq<(Seq<char>, Seq<char>)>,
    MainErrorView,
> {
    match r {
        Ok(v) => Ok(text::text_pairs(v@)),
        Err(e) => Err(e@),
    }
}

/// The error for a dependency that is asked for in two versions.
fn conflict_error(name: &str, existing: &str, version: &str) -> (r: MainError)
    ensures
        r@ == conflict(name@, existing@, version@),
{
    let mut message: String = "conflicting versions for dependency '".to_owned();
    message.append(name);
    message.append("': '");
    message.append(existing);
    message.append("', '");
    message.append(version);
    message.append("'");
    MainError::human(message.as_str())
}

/// Sort out the dependencies: expands `pkg` into `pkg=*`, checks for duplicates, and sorts them
/// so that they hash consistently.
///
/// The same package twice is *only* a problem if the versions don't match exactly.
pub fn sort_deps(deps: &Vec<String>) -> (r: Result<Vec<(String, String)>, MainError>)
    ensures
        deps_view(r) == dep_list(text::texts(deps@)),
        r matches Ok(v) ==> dep_map(text::texts(deps@)) matches Ok(m) && lists(
            text::text_pairs(v@),
            m,
        ),
{
    let mut sorted: Vec<(String, String)> = Vec::new();
    let ghost all = text::texts(deps@);
    let ghost mut m: Map<Seq<char>, Seq<char>> = Map::empty();
    let mut i: usize = 0;
    assert(all.take(0) =~= Seq::empty());
    while i < deps.len()
        invariant
            i <= deps.len(),
            all == text::texts(deps@),
            dep_map(all.take(i as int)) == Ok::<Map<Seq<char>, Seq<char>>, MainErrorView>(m),
            lists(text::text_pairs(sorted@), m),
        decreases deps.len() - i,
    {
        let ghost before = all.take(i as int);
        let ghost upto = all.take(i + 1);
        let ghost pairs = text::text_pairs(sorted@);
        let (name, version) = split_dep(deps[i].as_str());
        proof {
            assert(upto.drop_last() =~= before);
            assert(upto.last() == deps@[i as int]@);
        }
        if name.as_str().is_empty() {
            proof {
                dep_map_err_prefix(all, i + 1);
            }
            return Err(MainError::human("cannot have empty dependency package name"));
        }
        if version.as_str().is_empty() {
            proof {
                dep_map_err_prefix(all, i + 1);
            }
            return Err(MainError::human("cannot have empty dependency version"));
        }
        let mut at: usize = 0;
        while at < sorted.len() && text::text_before(sorted[at].0.as_str(), name.as_str())
            invariant
                at <= sorted.len(),
                pairs == text::text_pairs(sorted@),
                forall|k: int| 0 <= k < at ==> text::text_lt((#[trigger] pairs[k]).0, name@),
            decreases sorted.len() - at,
        {
            assert(pairs[at as int].0 == sorted@[at as int].0@);
            at = at + 1;
        }
        if at < sorted.len() {
            assert(pairs[at as int] == (sorted@[at as int].0@, sorted@[at as int].1@));
        }
        if at < sorted.len() && text::same_text(sorted[at].0.as_str(), name.as_str()) {
            if !text::same_text(sorted[at].1.as_str(), version.as_str()) {
                proof {
                    dep_map_err_prefix(all, i + 1);
                }
                return Err(
                    conflict_error(name.as_str(), sorted[at].1.as_str(), version.as_str()),
                );
            }
            proof {
                assert(m.insert(name@, version@) =~= m);
            }
        } else {
            proof {
                lists_insert(pairs, m, at as int, name@, version@);
                m = m.insert(name@, version@);
            }
            let ghost entry = (name, version);
            sorted.insert(at, (name, version));
            assert(text::text_pairs(sorted@) =~= pairs.insert(at as int, (entry.0@, entry.1@)));
        }
        i = i + 1;
    }
    proof {
        assert(all.take(i as int) =~= all);
        lists_unique(text::text_pairs(sorted@), listing(m), m);
    }
    Ok(sorted)
}

/// The error of a list is that of each longer list.
proof fn dep_map_err_prefix(deps: Seq<Seq<char>>, n: int)
    requires
        0 <= n <= deps.len(),
        dep_map(deps.take(n)) is Err,
    ensures
        dep_map(deps) == dep_map(deps.take(n)),
    decreases deps.len() - n,
{
    if n < deps.len() {
        assert(deps.take(n + 1).drop_last() =~= deps.take(n));
        dep_map_err_prefix(deps, n + 1);
    } else {
        assert(deps.take(n) =~= deps);
    }
}

/// Whether a list of dependencies is accepted: each has a name and a version, and none is asked
/// for in two versions.
pub open spec fn acceptable(deps: Seq<Seq<char>>) -> bool {
    &&& forall|i: int|
        0 <= i < deps.len() ==> dep_name(#[trigger] deps[i]).len() > 0 && dep_version(
            deps[i],
        ).len() > 0
    &&& forall|i: int, j: int|
        0 <= i < j < deps.len() && dep_name(#[trigger] deps[i]) == dep_name(#[trigger] deps[j])
            ==> dep_version(deps[i]) == dep_version(deps[j])
}

/// Whether a list of dependencies asks for a package in a version.
pub open spec fn asks_for(deps: Seq<Seq<char>>, pair: (Seq<char>, Seq<char>)) -> bool {
    exists|i: int| 0 <= i < deps.len() && dep_pair(#[trigger] deps[i]) == pair
}

/// Whether two lists ask for the same packages in the same versions.
pub open spec fn same_deps(a: Seq<Seq<char>>, b: Seq<Seq<char>>) -> bool {
    forall|pair: (Seq<char>, Seq<char>)| #[trigger] asks_for(a, pair) <==> asks_for(b, pair)
}

/// A list of dependencies is sorted, and not refused, if and only if each has a name and a
/// version and none is asked for in two versions; what comes of it is then exactly the packages
/// it names.
pub proof fn accepted_deps(deps: Seq<Seq<char>>)
    ensures
        dep_map(deps) is Ok <==> acceptable(deps),
        dep_map(deps) matches Ok(m) ==> {
            &&& forall|i: int|
                0 <= i < deps.len() ==> m.contains_key(dep_name(#[trigger] deps[i]))
                    && m[dep_name(deps[i])] == dep_version(deps[i])
            &&& forall|name: Seq<char>| #[trigger]
                m.contains_key(name) ==> exists|i: int|
                    0 <= i < deps.len() && dep_name(#[trigger] deps[i]) == name
        },
    decreases deps.len(),
{
    if deps.len() > 0 {
        let init = deps.drop_last();
        let n = deps.len() - 1;
        accepted_deps(init);
        assert forall|i: int| 0 <= i < n implies #[trigger] init[i] == deps[i] by {}
        if acceptable(deps) {
            assert(acceptable(init)) by {
                assert forall|i: int| 0 <= i < init.len() implies dep_name(
                    #[trigger] init[i],
                ).len() > 0 && dep_version(init[i]).len() > 0 by {
                    assert(init[i] == deps[i]);
                }
                assert forall|i: int, j: int|
                    0 <= i < j < init.len() && dep_name(#[trigger] init[i]) == dep_name(
                        #[trigger] init[j],
                    ) implies dep_version(init[i]) == dep_version(init[j]) by {
                    assert(init[i] == deps[i] && init[j] == deps[j]);
                }
            }
            let m = dep_map(init)->Ok_0;
            let name = dep_name(deps[n]);
            if m.contains_key(name) {
                let i = choose|i: int| 0 <= i < init.len() && dep_name(#[trigger] init[i]) == name;
                assert(init[i] == deps[i]);
                assert(m[name] == dep_version(deps[i]));
            }
        }
        if dep_map(deps) is Ok {
            let m = dep_map(init)->Ok_0;
            let name = dep_name(deps[n]);
            let all = dep_map(deps)->Ok_0;
            assert forall|i: int| 0 <= i < deps.len() implies all.contains_key(
                dep_name(#[trigger] deps[i]),
            ) && all[dep_name(deps[i])] == dep_version(deps[i]) by {
                if i < n {
                    assert(init[i] == deps[i]);
                }
            }
            assert forall|x: Seq<char>| #[trigger] all.contains_key(x) implies exists|i: int|
                0 <= i < deps.len() && dep_name(#[trigger] deps[i]) == x by {
                if x == name {
                    assert(dep_name(deps[n]) == x);
                } else {
                    assert(m.contains_key(x));
                    let i = choose|i: int| 0 <= i < init.len() && dep_name(#[trigger] init[i]) == x;
                    assert(init[i] == deps[i]);
                }
            }
        }
    }
}

/// The order in which dependencies are given, and whether one is repeated, makes no difference.
pub proof fn deps_in_any_order(a: Seq<Seq<char>>, b: Seq<Seq<char>>)
    requires
        acceptable(a),
        same_deps(a, b),
    ensures
        acceptable(b),
        dep_list(a) == dep_list(b),
{
    accepted_deps(a);
    accepted_deps(b);
    assert forall|j: int| 0 <= j < b.len() implies asks_for(a, dep_pair(#[trigger] b[j])) by {
        assert(asks_for(b, dep_pair(b[j])));
    }
    assert forall|i: int| 0 <= i < a.len() implies asks_for(b, dep_pair(#[trigger] a[i])) by {
        assert(asks_for(a, dep_pair(a[i])));
    }
    assert forall|i: int, j: int|
        0 <= i < j < b.len() && dep_name(#[trigger] b[i]) == dep_name(
            #[trigger] b[j],
        ) implies dep_version(b[i]) == dep_version(b[j]) by {
        let k = choose|k: int| 0 <= k < a.len() && dep_pair(#[trigger] a[k]) == dep_pair(b[i]);
        let l = choose|l: int| 0 <= l < a.len() && dep_pair(#[trigger] a[l]) == dep_pair(b[j]);
        if k < l {
            assert(dep_name(a[k]) == dep_name(a[l]));
        } else if l < k {
            assert(dep_name(a[l]) == dep_name(a[k]));
        }
    }
    assert(acceptable(b));
    let m = dep_map(a)->Ok_0;
    let n = dep_map(b)->Ok_0;
    assert forall|x: Seq<char>| m.contains_key(x) implies n.contains_key(x) && n[x] == m[x] by {
        let i = choose|i: int| 0 <= i < a.len() && dep_name(#[trigger] a[i]) == x;
        let j = choose|j: int| 0 <= j < b.len() && dep_pair(#[trigger] b[j]) == dep_pair(a[i]);
        assert(n.contains_key(dep_name(b[j])));
    }
    assert forall|x: Seq<char>| n.contains_key(x) implies m.contains_key(x) by {
        let j = choose|j: int| 0 <= j < b.len() && dep_name(#[trigger] b[j]) == x;
        let i = choose|i: int| 0 <= i < a.len() && dep_pair(#[trigger] a[i]) == dep_pair(b[j]);
        assert(m.contains_key(dep_name(a[i])));
    }
    assert(m =~= n);
}

/// A dependency without a version means the same as one with the version `*`.
pub proof fn bare_dep_is_any_version(dep: Seq<char>)
    requires
        !dep.contains('='),
    ensures
        dep_pair(dep) == (dep, "*"@),
        dep_pair(dep + "=*"@) == dep_pair(dep),
{
    reveal_strlit("=*");
    reveal_strlit("*");
    name_len_no_equals(dep, "=*"@);
    name_len_no_equals(dep, Seq::empty());
    let full = dep + "=*"@;
    assert(dep + Seq::empty() =~= dep);
    assert(dep.take(dep.len() as int) =~= dep);
    assert(full.take(dep.len() as int) =~= dep);
    assert(full.skip(dep.len() + 1int) =~= "*"@);
}

/// A name without an equals sign runs up to what follows it.
proof fn name_len_no_equals(dep: Seq<char>, rest: Seq<char>)
    requires
        !dep.contains('='),
        rest.len() == 0 || rest[0] == '=',
    ensures
        name_len(dep + rest) == dep.len(),
    decreases dep.len(),
{
    let full = dep + rest;
    if dep.len() > 0 {
        assert(dep.contains(dep[0]));
        let tail = dep.drop_first();
        assert(!tail.contains('=')) by {
            assert forall|i: int| 0 <= i < tail.len() implies tail[i] != '=' by {
                assert(dep.contains(dep[i + 1]));
            }
        }
        name_len_no_equals(tail, rest);
        assert(full.drop_first() =~= tail + rest);
    } else {
        assert(full =~= rest);
    }
}

/// The line that switches an unstable feature on.
pub open spec fn feature_item(feature: Seq<char>) -> Seq<char> {
    "#![feature("@ + feature + ")]"@
}

/// Whether the text `a` is `b` or comes before it.
pub open spec fn text_le() -> spec_fn(Seq<char>, Seq<char>) -> bool {
    |a: Seq<char>, b: Seq<char>| !text::text_lt(b, a)
}

/// The lines that switch unstable features on, in order.
pub open spec fn prelude_list(features: Seq<Seq<char>>) -> Seq<Seq<char>> {
    features.map_values(|f: Seq<char>| feature_item(f)).sort_by(text_le())
}

/// Texts are totally ordered.
pub proof fn text_le_total()
    ensures
        total_ordering(text_le()),
{
    let le = text_le();
    assert forall|x: Seq<char>| #[trigger] le(x, x) by {
        text::text_lt_irreflexive(x);
    }
    assert forall|x: Seq<char>, y: Seq<char>| #[trigger] le(x, y) && #[trigger] le(
        y,
        x,
    ) implies x == y by {
        text::text_lt_total(x, y);
    }
    assert forall|x: Seq<char>, y: Seq<char>, z: Seq<char>| #[trigger] le(x, y) && #[trigger] le(
        y,
        z,
    ) implies le(x, z) by {
        text::text_lt_total(x, y);
        text::text_lt_total(y, z);
        if text::text_lt(z, x) {
            if x == y {
            } else if y == z {
            } else {
                text::text_lt_transitive(x, y, z);
                text::text_lt_transitive(x, z, x);
                text::text_lt_irreflexive(x);
            }
        }
    }
    assert forall|x: Seq<char>, y: Seq<char>| #[trigger] le(x, y) || #[trigger] le(y, x) by {
        if text::text_lt(y, x) && text::text_lt(x, y) {
            text::text_lt_transitive(x, y, x);
            text::text_lt_irreflexive(x);
        }
    }
}

/// Generate the prelude items: a line for each unstable feature, sorted so that they hash
/// consistently.
pub fn sort_prelude(features: &Vec<String>) -> (r: Vec<String>)
    ensures
        text::texts(r@) == prelude_list(text::texts(features@)),
        sorted_by(text::texts(r@), text_le()),
        text::texts(r@).to_multiset() == text::texts(features@).map_values(
            |f: Seq<char>| feature_item(f),
        ).to_multiset(),
{
    let mut items: Vec<String> = Vec::new();
    let ghost all = text::texts(features@).map_values(|f: Seq<char>| feature_item(f));
    proof {
        text_le_total();
        assert(text::texts(items@) =~= Seq::<Seq<char>>::empty());
        assert(all.take(0) =~= Seq::<Seq<char>>::empty());
    }
    let mut i: usize = 0;
    while i < features.len()
        invariant
            i <= features.len(),
            total_ordering(text_le()),
            all == text::texts(features@).map_values(|f: Seq<char>| feature_item(f)),
            sorted_by(text::texts(items@), text_le()),
            text::texts(items@).to_multiset() == all.take(i as int).to_multiset(),
        decreases features.len() - i,
    {
        let ghost old_items = text::texts(items@);
        let mut item: String = "#![feature(".to_owned();
        item.append(features[i].as_str());
        item.append(")]");
        let ghost said = item@;
        let mut at: usize = 0;
        while at < items.len() && text::text_before(items[at].as_str(), item.as_str())
            invariant
                at <= items.len(),
                item@ == said,
                old_items == text::texts(items@),
                forall|k: int| 0 <= k < at ==> text::text_lt(#[trigger] old_items[k], said),
            decreases items.len() - at,
        {
            assert(old_items[at as int] == items@[at as int]@);
            at = at + 1;
        }
        assert(at < items.len() ==> old_items[at as int] == items@[at as int]@);
        items.insert(at, item);
        proof {
            broadcast use group_to_multiset_ensures;

            let new_items = text::texts(items@);
            assert(new_items =~= old_items.insert(at as int, said));
            insert_sorted(old_items, at as int, said);
            assert(all.take(i + 1) =~= all.take(i as int).push(said));
            assert(new_items.to_multiset() =~= all.take(i + 1).to_multiset());
        }
        i = i + 1;
    }
    proof {
        assert(all.take(i as int) =~= all);
        all.lemma_sort_by_ensures(text_le());
        lemma_sorted_unique(text::texts(items@), all.sort_by(text_le()), text_le());
    }
    items
}

/// A text goes in front of the first one that is not before it.
proof fn insert_sorted(s: Seq<Seq<char>>, at: int, item: Seq<char>)
    requires
        sorted_by(s, text_le()),
        0 <= at <= s.len(),
        forall|i: int| 0 <= i < at ==> text::text_lt(#[trigger] s[i], item),
        at < s.len() ==> !text::text_lt(s[at], item),
    ensures
        sorted_by(s.insert(at, item), text_le()),
{
    let t = s.insert(at, item);
    let le = text_le();
    text_le_total();
    assert forall|i: int, j: int| 0 <= i < j < t.len() implies #[trigger] le(t[i], t[j]) by {
        if j < at {
            assert(le(s[i], s[j]));
        } else if i > at {
            assert(le(s[i - 1], s[j - 1]));
        } else if i == at {
            assert(le(item, s[at]));
            if j - 1 > at {
                assert(le(s[at], s[j - 1]));
            }
        } else {
            if text::text_lt(item, s[i]) {
                text::text_lt_transitive(item, s[i], item);
                text::text_lt_irreflexive(item);
            }
            assert(le(s[i], item));
            if j > at {
                assert(le(s[i], s[j - 1]));
            }
        }
    }
}

/// The order in which unstable features are given makes no difference.
pub proof fn prelude_in_any_order(a: Seq<Seq<char>>, b: Seq<Seq<char>>)
    requires
        a.to_multiset() == b.to_multiset(),
    ensures
        prelude_list(a) == prelude_list(b),
{
    text_le_total();
    let f = |x: Seq<char>| feature_item(x);
    let x = a.map_values(f);
    let y = b.map_values(f);
    map_same_multiset(a, b, f);
    x.lemma_sort_by_ensures(text_le());
    y.lemma_sort_by_ensures(text_le());
    lemma_sorted_unique(x.sort_by(text_le()), y.sort_by(text_le()), text_le());
}

/// What is done to each text does not depend on their order.
proof fn map_same_multiset(
    a: Seq<Seq<char>>,
    b: Seq<Seq<char>>,
    f: spec_fn(Seq<char>) -> Seq<char>,
)
    requires
        a.to_multiset() == b.to_multiset(),
    ensures
        a.map_values(f).to_multiset() == b.map_values(f).to_multiset(),
    decreases a.len(),
{
    broadcast use group_to_multiset_ensures;

    assert(a.len() == a.to_multiset().len());
    assert(b.len() == b.to_multiset().len());
    if a.len() == 0 {
        assert(a.map_values(f) =~= b.map_values(f));
    } else {
        let x = a.last();
        assert(a.contains(x));
        assert(a.to_multiset().contains(x));
        assert(b.to_multiset().contains(x));
        assert(b.contains(x));
        let k = choose|k: int| 0 <= k < b.len() && b[k] == x;
        let a1 = a.remove(a.len() - 1);
        let b1 = b.remove(k);
        assert(a1.to_multiset() =~= b1.to_multiset());
        map_same_multiset(a1, b1, f);
        assert(a1.map_values(f) =~= a.map_values(f).remove(a.len() - 1));
        assert(b1.map_values(f) =~= b.map_values(f).remove(k));
        let ma = a.map_values(f).to_multiset();
        let mb = b.map_values(f).to_multiset();
        assert(ma.remove(f(x)) == mb.remove(f(x)));
        assert(a.map_values(f).contains(f(x))) by {
            assert(a.map_values(f)[a.len() - 1] == f(x));
        }
        assert(b.map_values(f).contains(f(x))) by {
            assert(b.map_values(f)[k] == f(x));
        }
        assert(ma =~= ma.remove(f(x)).insert(f(x)));
        assert(mb =~= mb.remove(f(x)).insert(f(x)));
    }
}

} // verus!

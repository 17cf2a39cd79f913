//! What is written out can be read back: the parts of which metadata is written end where they
//! end, whatever follows, and tell their values apart.
use vstd::prelude::*;
use vstd::string::*;
use crate::metadata::{self, PackageMetadataView};
use crate::text;

verus! {

/// How texts are grouped that are put together does not matter.
proof fn regroup(a: Seq<char>, b: Seq<char>, c: Seq<char>)
    ensures
        a + b + c == a + (b + c),
{
    assert(a + b + c =~= a + (b + c));
}

/// After the same start, texts that are the same go on the same.
pub(crate) proof fn same_rest(a: Seq<char>, u: Seq<char>, v: Seq<char>)
    requires
        a + u == a + v,
    ensures
        u == v,
{
    assert((a + u).skip(a.len() as int) =~= u);
    assert((a + v).skip(a.len() as int) =~= v);
}

/// A quoted text ends where it ends.
proof fn quoted_splits(x: Seq<char>, y: Seq<char>, u: Seq<char>, v: Seq<char>)
    requires
        text::readable(x),
        text::quoted(x) + u == text::quoted(y) + v,
    ensures
        x == y,
        u == v,
{
    let a = text::quoted(x);
    let b = text::quoted(y);
    if a.len() <= b.len() {
        assert((a + u).take(a.len() as int) =~= a);
        assert((b + v).take(a.len() as int) =~= b.take(a.len() as int));
        assert(a.is_prefix_of(b));
    } else {
        assert((b + v).take(b.len() as int) =~= b);
        assert((a + u).take(b.len() as int) =~= a.take(b.len() as int));
        assert(b.is_prefix_of(a));
    }
    same_rest(a, u, v);
}

/// Where two written values go on the same, so do the values in them.
proof fn some_splits(a: Seq<char>, b: Seq<char>, u: Seq<char>, v: Seq<char>)
    requires
        metadata::written_option(Some(a)) + u == metadata::written_option(Some(b)) + v,
    ensures
        a + (")"@ + u) == b + (")"@ + v),
{
    regroup("Some("@ + a, ")"@, u);
    regroup("Some("@, a, ")"@ + u);
    regroup("Some("@ + b, ")"@, v);
    regroup("Some("@, b, ")"@ + v);
    same_rest("Some("@, a + (")"@ + u), b + (")"@ + v));
}

/// A value is not written like none.
proof fn some_is_not_none(a: Seq<char>, u: Seq<char>, v: Seq<char>)
    ensures
        metadata::written_option(Some(a)) + u != metadata::written_option(None) + v,
{
    reveal_strlit("Some(");
    reveal_strlit("None");
    assert((metadata::written_option(Some(a)) + u)[0] == 'S');
    assert((metadata::written_option(None) + v)[0] == 'N');
}

/// A written optional text ends where it ends.
proof fn opt_text_splits(
    x: Option<Seq<char>>,
    y: Option<Seq<char>>,
    u: Seq<char>,
    v: Seq<char>,
)
    requires
        text::opt_readable(x),
        metadata::written_opt_text(x) + u == metadata::written_opt_text(y) + v,
    ensures
        x == y,
        u == v,
{
    match (x, y) {
        (Some(a), Some(b)) => {
            some_splits(text::quoted(a), text::quoted(b), u, v);
            quoted_splits(a, b, ")"@ + u, ")"@ + v);
            same_rest(")"@, u, v);
        },
        (Some(a), None) => some_is_not_none(text::quoted(a), u, v),
        (None, Some(b)) => some_is_not_none(text::quoted(b), v, u),
        (None, None) => same_rest("None"@, u, v),
    }
}

/// A number in decimal is made of digits.
proof fn decimal_is_digits(n: nat)
    ensures
        text::decimal(n).len() > 0,
        forall|i: int|
            0 <= i < text::decimal(n).len() ==> '0' <= #[trigger] text::decimal(n)[i] <= '9',
    decreases n,
{
    if n >= 10 {
        decimal_is_digits(n / 10);
    }
}

/// A number in decimal tells which number it is.
proof fn decimals_differ(n: nat, m: nat)
    requires
        text::decimal(n) == text::decimal(m),
    ensures
        n == m,
    decreases n,
{
    let a = text::decimal(n);
    let b = text::decimal(m);
    decimal_is_digits(n / 10);
    decimal_is_digits(m / 10);
    assert(a.last() == text::digit(n % 10));
    assert(b.last() == text::digit(m % 10));
    if n >= 10 && m >= 10 {
        assert(a.drop_last() =~= text::decimal(n / 10));
        assert(b.drop_last() =~= text::decimal(m / 10));
        decimals_differ(n / 10, m / 10);
    }
}

/// A written optional number ends where it ends.
proof fn opt_number_splits(x: Option<u128>, y: Option<u128>, u: Seq<char>, v: Seq<char>)
    requires
        metadata::written_opt_number(x) + u == metadata::written_opt_number(y) + v,
    ensures
        x == y,
        u == v,
{
    match (x, y) {
        (Some(n), Some(m)) => {
            let a = text::decimal(n as nat);
            let b = text::decimal(m as nat);
            some_splits(a, b, u, v);
            decimal_is_digits(n as nat);
            decimal_is_digits(m as nat);
            reveal_strlit(")");
            let l = a + (")"@ + u);
            let r = b + (")"@ + v);
            if a.len() < b.len() {
                assert(l[a.len() as int] == ')');
                assert(r[a.len() as int] == b[a.len() as int]);
            } else if b.len() < a.len() {
                assert(r[b.len() as int] == ')');
                assert(l[b.len() as int] == a[b.len() as int]);
            }
            assert(a =~= l.take(a.len() as int));
            assert(b =~= r.take(b.len() as int));
            decimals_differ(n as nat, m as nat);
            same_rest(a, ")"@ + u, ")"@ + v);
            same_rest(")"@, u, v);
        },
        (Some(n), None) => some_is_not_none(text::decimal(n as nat), u, v),
        (None, Some(m)) => some_is_not_none(text::decimal(m as nat), v, u),
        (None, None) => same_rest("None"@, u, v),
    }
}

/// A written pair ends where it ends.
proof fn pair_splits(
    x: (Seq<char>, Seq<char>),
    y: (Seq<char>, Seq<char>),
    u: Seq<char>,
    v: Seq<char>,
)
    requires
        text::readable(x.0),
        text::readable(x.1),
        metadata::written_pair(x) + u == metadata::written_pair(y) + v,
    ensures
        x == y,
        u == v,
{
    let l2 = text::quoted(x.1) + (")"@ + u);
    let r2 = text::quoted(y.1) + (")"@ + v);
    pair_in_parts(x, u);
    pair_in_parts(y, v);
    same_rest(
        "("@,
        text::quoted(x.0) + (", "@ + l2),
        text::quoted(y.0) + (", "@ + r2),
    );
    quoted_splits(x.0, y.0, ", "@ + l2, ", "@ + r2);
    same_rest(", "@, l2, r2);
    quoted_splits(x.1, y.1, ")"@ + u, ")"@ + v);
    same_rest(")"@, u, v);
}

/// A written pair and what follows it, part by part.
proof fn pair_in_parts(x: (Seq<char>, Seq<char>), u: Seq<char>)
    ensures
        metadata::written_pair(x) + u == "("@ + (text::quoted(x.0) + (", "@ + (text::quoted(x.1) + (
        ")"@ + u)))),
{
    let a = text::quoted(x.0);
    let b = text::quoted(x.1);
    regroup("("@ + a + ", "@ + b, ")"@, u);
    regroup("("@ + a + ", "@, b, ")"@ + u);
    regroup("("@ + a, ", "@, b + (")"@ + u));
    regroup("("@, a, ", "@ + (b + (")"@ + u)));
}

/// How the items of a list are written.
spec fn items_of<A>(item: spec_fn(A) -> Seq<char>, xs: Seq<A>) -> Seq<Seq<char>> {
    xs.map_values(item)
}

/// Whether a written item ends where it ends.
spec fn item_splits<A>(item: spec_fn(A) -> Seq<char>, x: A) -> bool {
    forall|y: A, u: Seq<char>, v: Seq<char>|
        #[trigger] (item(x) + u) == #[trigger] (item(y) + v) ==> x == y && u == v
}

/// Whether no written item looks like the end of a list.
spec fn items_show<A>(item: spec_fn(A) -> Seq<char>) -> bool {
    forall|x: A| (#[trigger] item(x)).len() > 0 && item(x)[0] != ']'
}

/// The first of several texts with commas between them stands in front of the others.
pub(crate) proof fn first_comes_first(items: Seq<Seq<char>>)
    requires
        items.len() > 1,
    ensures
        metadata::comma_separated(items) == items[0] + (", "@ + metadata::comma_separated(
            items.skip(1),
        )),
    decreases items.len(),
{
    let rest = items.skip(1);
    let front = items.drop_last();
    if items.len() == 2 {
        assert(metadata::comma_separated(front) == items[0]);
        assert(metadata::comma_separated(rest) == items[1]);
        regroup(items[0], ", "@, items[1]);
    } else {
        first_comes_first(front);
        assert(front.skip(1) =~= rest.drop_last());
        let mid = metadata::comma_separated(rest.drop_last());
        assert(metadata::comma_separated(rest) == mid + ", "@ + items.last());
        regroup(items[0] + (", "@ + mid), ", "@, items.last());
        regroup(items[0], ", "@ + mid, ", "@ + items.last());
        regroup(", "@, mid, ", "@ + items.last());
        regroup(mid, ", "@, items.last());
    }
}

/// What follows the first item of a list, to its end and beyond.
spec fn after_first<A>(item: spec_fn(A) -> Seq<char>, xs: Seq<A>, u: Seq<char>) -> Seq<char> {
    if xs.len() == 1 {
        "]"@ + u
    } else {
        ", "@ + (metadata::comma_separated(items_of(item, xs.skip(1))) + ("]"@ + u))
    }
}

/// A list that is not empty starts with its first item.
proof fn list_in_parts<A>(item: spec_fn(A) -> Seq<char>, xs: Seq<A>, u: Seq<char>)
    requires
        xs.len() > 0,
    ensures
        metadata::comma_separated(items_of(item, xs)) + ("]"@ + u) == item(xs[0]) + after_first(
            item,
            xs,
            u,
        ),
{
    let items = items_of(item, xs);
    if xs.len() > 1 {
        let rest = metadata::comma_separated(items.skip(1));
        first_comes_first(items);
        assert(items.skip(1) =~= items_of(item, xs.skip(1)));
        regroup(items[0], ", "@ + rest, "]"@ + u);
        regroup(", "@, rest, "]"@ + u);
    }
}

/// A written list ends where it ends, if its items do.
proof fn items_split<A>(
    item: spec_fn(A) -> Seq<char>,
    xs: Seq<A>,
    ys: Seq<A>,
    u: Seq<char>,
    v: Seq<char>,
)
    requires
        forall|i: int| 0 <= i < xs.len() ==> item_splits(item, #[trigger] xs[i]),
        items_show(item),
        metadata::comma_separated(items_of(item, xs)) + ("]"@ + u) == metadata::comma_separated(
            items_of(item, ys),
        ) + ("]"@ + v),
    ensures
        xs == ys,
        u == v,
    decreases xs.len(),
{
    reveal_strlit("]");
    reveal_strlit(", ");
    let l = metadata::comma_separated(items_of(item, xs)) + ("]"@ + u);
    let r = metadata::comma_separated(items_of(item, ys)) + ("]"@ + v);
    if xs.len() > 0 {
        list_in_parts(item, xs, u);
        assert(l[0] == item(xs[0])[0]);
    } else {
        assert(l[0] == ']');
    }
    if ys.len() > 0 {
        list_in_parts(item, ys, v);
        assert(r[0] == item(ys[0])[0]);
    } else {
        assert(r[0] == ']');
    }
    if xs.len() == 0 {
        assert(ys.len() == 0);
        assert(l =~= "]"@ + u);
        assert(r =~= "]"@ + v);
        same_rest("]"@, u, v);
        assert(xs =~= ys);
    } else {
        assert(ys.len() > 0);
        let a = after_first(item, xs, u);
        let b = after_first(item, ys, v);
        assert(item_splits(item, xs[0]));
        assert(item(xs[0]) + a == item(ys[0]) + b);
        assert(xs[0] == ys[0] && a == b);
        if xs.len() == 1 && ys.len() == 1 {
            same_rest("]"@, u, v);
            assert(xs =~= ys);
        } else if xs.len() == 1 {
            assert(a[0] == ']' && b[0] == ',');
        } else if ys.len() == 1 {
            assert(a[0] == ',' && b[0] == ']');
        } else {
            let more_x = xs.skip(1);
            let more_y = ys.skip(1);
            same_rest(
                ", "@,
                metadata::comma_separated(items_of(item, more_x)) + ("]"@ + u),
                metadata::comma_separated(items_of(item, more_y)) + ("]"@ + v),
            );
            assert forall|i: int| 0 <= i < more_x.len() implies item_splits(
                item,
                #[trigger] more_x[i],
            ) by {
                assert(more_x[i] == xs[i + 1]);
            }
            items_split(item, more_x, more_y, u, v);
            assert(xs =~= seq![xs[0]] + more_x);
            assert(ys =~= seq![ys[0]] + more_y);
        }
    }
}

/// A written list ends where it ends, if its items do.
proof fn list_splits<A>(
    item: spec_fn(A) -> Seq<char>,
    xs: Seq<A>,
    ys: Seq<A>,
    u: Seq<char>,
    v: Seq<char>,
)
    requires
        forall|i: int| 0 <= i < xs.len() ==> item_splits(item, #[trigger] xs[i]),
        items_show(item),
        metadata::written_list(xs.map_values(item)) + u == metadata::written_list(
            ys.map_values(item),
        ) + v,
    ensures
        xs == ys,
        u == v,
{
    let a = metadata::comma_separated(items_of(item, xs));
    let b = metadata::comma_separated(items_of(item, ys));
    regroup("["@ + a, "]"@, u);
    regroup("["@, a, "]"@ + u);
    regroup("["@ + b, "]"@, v);
    regroup("["@, b, "]"@ + v);
    same_rest("["@, a + ("]"@ + u), b + ("]"@ + v));
    items_split(item, xs, ys, u, v);
}

/// Whether every text in metadata can be read back from its quoted form.
pub open spec fn all_readable(m: PackageMetadataView) -> bool {
    &&& text::opt_readable(m.path)
    &&& text::opt_readable(m.template)
    &&& forall|i: int|
        0 <= i < m.deps.len() ==> text::readable((#[trigger] m.deps[i]).0) && text::readable(
            m.deps[i].1,
        )
    &&& forall|i: int| 0 <= i < m.prelude.len() ==> text::readable(#[trigger] m.prelude[i])
    &&& text::opt_readable(m.features)
    &&& text::readable(m.manifest_hash)
    &&& text::readable(m.script_hash)
}

/// How the debug mode is written.
spec fn debug_part(debug: bool) -> Seq<char> {
    if debug {
        ", debug: true"@
    } else {
        ", debug: false"@
    }
}

/// What is written from the script's hash on.
spec fn from_script_hash(m: PackageMetadataView) -> Seq<char> {
    text::quoted(m.script_hash) + " }"@
}

/// What is written from the manifest's hash on.
spec fn from_manifest_hash(m: PackageMetadataView) -> Seq<char> {
    text::quoted(m.manifest_hash) + (", script_hash: "@ + from_script_hash(m))
}

/// What is written from the features on.
spec fn from_features(m: PackageMetadataView) -> Seq<char> {
    metadata::written_opt_text(m.features) + (", manifest_hash: "@ + from_manifest_hash(m))
}

/// What is written from the prelude on.
spec fn from_prelude(m: PackageMetadataView) -> Seq<char> {
    metadata::written_list(m.prelude.map_values(|s: Seq<char>| text::quoted(s))) + (
    ", features: "@ + from_features(m))
}

/// What is written from the dependencies on.
spec fn from_deps(m: PackageMetadataView) -> Seq<char> {
    metadata::written_list(
        m.deps.map_values(|p: (Seq<char>, Seq<char>)| metadata::written_pair(p)),
    ) + (", prelude: "@ + from_prelude(m))
}

/// What is written from the debug mode on.
spec fn from_debug(m: PackageMetadataView) -> Seq<char> {
    debug_part(m.debug) + (", deps: "@ + from_deps(m))
}

/// What is written from the template on.
spec fn from_template(m: PackageMetadataView) -> Seq<char> {
    metadata::written_opt_text(m.template) + from_debug(m)
}

/// What is written from the modification time on.
spec fn from_modified(m: PackageMetadataView) -> Seq<char> {
    metadata::written_opt_number(m.modified) + (", template: "@ + from_template(m))
}

/// What is written from the path on.
spec fn from_path(m: PackageMetadataView) -> Seq<char> {
    metadata::written_opt_text(m.path) + (", modified: "@ + from_modified(m))
}

/// Written metadata, part by part.
proof fn metadata_in_parts(m: PackageMetadataView)
    ensures
        m.written() == "PackageMetadata { path: "@ + from_path(m),
{
    let s1 = "PackageMetadata { path: "@;
    let s2 = s1 + metadata::written_opt_text(m.path);
    let s3 = s2 + ", modified: "@;
    let s4 = s3 + metadata::written_opt_number(m.modified);
    let s5 = s4 + ", template: "@;
    let s6 = s5 + metadata::written_opt_text(m.template);
    let s7 = s6 + debug_part(m.debug);
    let s8 = s7 + ", deps: "@;
    let s9 = s8 + metadata::written_list(
        m.deps.map_values(|p: (Seq<char>, Seq<char>)| metadata::written_pair(p)),
    );
    let s10 = s9 + ", prelude: "@;
    let s11 = s10 + metadata::written_list(
        m.prelude.map_values(|s: Seq<char>| text::quoted(s)),
    );
    let s12 = s11 + ", features: "@;
    let s13 = s12 + metadata::written_opt_text(m.features);
    let s14 = s13 + ", manifest_hash: "@;
    let s15 = s14 + text::quoted(m.manifest_hash);
    let s16 = s15 + ", script_hash: "@;
    assert(m.written() == s16 + text::quoted(m.script_hash) + " }"@);
    regroup(s16, text::quoted(m.script_hash), " }"@);
    regroup(s15, ", script_hash: "@, from_script_hash(m));
    regroup(s14, text::quoted(m.manifest_hash), ", script_hash: "@ + from_script_hash(m));
    regroup(s13, ", manifest_hash: "@, from_manifest_hash(m));
    regroup(
        s12,
        metadata::written_opt_text(m.features),
        ", manifest_hash: "@ + from_manifest_hash(m),
    );
    regroup(s11, ", features: "@, from_features(m));
    regroup(
        s10,
        metadata::written_list(m.prelude.map_values(|s: Seq<char>| text::quoted(s))),
        ", features: "@ + from_features(m),
    );
    regroup(s9, ", prelude: "@, from_prelude(m));
    regroup(
        s8,
        metadata::written_list(
            m.deps.map_values(|p: (Seq<char>, Seq<char>)| metadata::written_pair(p)),
        ),
        ", prelude: "@ + from_prelude(m),
    );
    regroup(s7, ", deps: "@, from_deps(m));
    regroup(s6, debug_part(m.debug), ", deps: "@ + from_deps(m));
    regroup(s5, metadata::written_opt_text(m.template), from_debug(m));
    regroup(s4, ", template: "@, from_template(m));
    regroup(
        s3,
        metadata::written_opt_number(m.modified),
        ", template: "@ + from_template(m),
    );
    regroup(s2, ", modified: "@, from_modified(m));
    regroup(s1, metadata::written_opt_text(m.path), ", modified: "@ + from_modified(m));
}

/// The written debug mode ends where it ends.
proof fn debug_splits(x: bool, y: bool, u: Seq<char>, v: Seq<char>)
    requires
        debug_part(x) + u == debug_part(y) + v,
    ensures
        x == y,
        u == v,
{
    reveal_strlit(", debug: true");
    reveal_strlit(", debug: false");
    let l = debug_part(x) + u;
    let r = debug_part(y) + v;
    assert(l[9] == if x {
        't'
    } else {
        'f'
    });
    assert(r[9] == if y {
        't'
    } else {
        'f'
    });
    same_rest(debug_part(x), u, v);
}

/// A written list of pairs ends where it ends.
proof fn pairs_split(
    xs: Seq<(Seq<char>, Seq<char>)>,
    ys: Seq<(Seq<char>, Seq<char>)>,
    u: Seq<char>,
    v: Seq<char>,
)
    requires
        forall|i: int|
            0 <= i < xs.len() ==> text::readable((#[trigger] xs[i]).0) && text::readable(xs[i].1),
        metadata::written_list(
            xs.map_values(|p: (Seq<char>, Seq<char>)| metadata::written_pair(p)),
        ) + u == metadata::written_list(
            ys.map_values(|p: (Seq<char>, Seq<char>)| metadata::written_pair(p)),
        ) + v,
    ensures
        xs == ys,
        u == v,
{
    let item = |p: (Seq<char>, Seq<char>)| metadata::written_pair(p);
    assert(items_show(item)) by {
        reveal_strlit("(");
    }
    assert forall|i: int| 0 <= i < xs.len() implies item_splits(item, #[trigger] xs[i]) by {
        let x = xs[i];
        assert forall|y: (Seq<char>, Seq<char>), a: Seq<char>, b: Seq<char>|
            #[trigger] (item(x) + a) == #[trigger] (item(y) + b) implies x == y && a == b by {
            pair_splits(x, y, a, b);
        }
    }
    list_splits(item, xs, ys, u, v);
}

/// A written list of texts ends where it ends.  That some text can be read back shows that quoted
/// texts do not look like the end of a list, even where this list is empty.
proof fn texts_split(
    xs: Seq<Seq<char>>,
    ys: Seq<Seq<char>>,
    known: Seq<char>,
    u: Seq<char>,
    v: Seq<char>,
)
    requires
        forall|i: int| 0 <= i < xs.len() ==> text::readable(#[trigger] xs[i]),
        text::readable(known),
        metadata::written_list(xs.map_values(|s: Seq<char>| text::quoted(s))) + u
            == metadata::written_list(ys.map_values(|s: Seq<char>| text::quoted(s))) + v,
    ensures
        xs == ys,
        u == v,
{
    let item = |s: Seq<char>| text::quoted(s);
    assert(items_show(item));
    assert forall|i: int| 0 <= i < xs.len() implies item_splits(item, #[trigger] xs[i]) by {
        let x = xs[i];
        assert forall|y: Seq<char>, a: Seq<char>, b: Seq<char>|
            #[trigger] (item(x) + a) == #[trigger] (item(y) + b) implies x == y && a == b by {
            quoted_splits(x, y, a, b);
        }
    }
    list_splits(item, xs, ys, u, v);
}

/// Metadata whose texts can be read back can be read back itself.
pub(crate) proof fn metadata_reads_back(x: PackageMetadataView, y: PackageMetadataView)
    requires
        all_readable(x),
        x.written() == y.written(),
    ensures
        x == y,
{
    metadata_in_parts(x);
    metadata_in_parts(y);
    same_rest("PackageMetadata { path: "@, from_path(x), from_path(y));
    opt_text_splits(
        x.path,
        y.path,
        ", modified: "@ + from_modified(x),
        ", modified: "@ + from_modified(y),
    );
    same_rest(", modified: "@, from_modified(x), from_modified(y));
    opt_number_splits(
        x.modified,
        y.modified,
        ", template: "@ + from_template(x),
        ", template: "@ + from_template(y),
    );
    same_rest(", template: "@, from_template(x), from_template(y));
    opt_text_splits(x.template, y.template, from_debug(x), from_debug(y));
    debug_splits(x.debug, y.debug, ", deps: "@ + from_deps(x), ", deps: "@ + from_deps(y));
    same_rest(", deps: "@, from_deps(x), from_deps(y));
    pairs_split(
        x.deps,
        y.deps,
        ", prelude: "@ + from_prelude(x),
        ", prelude: "@ + from_prelude(y),
    );
    same_rest(", prelude: "@, from_prelude(x), from_prelude(y));
    texts_split(
        x.prelude,
        y.prelude,
        x.script_hash,
        ", features: "@ + from_features(x),
        ", features: "@ + from_features(y),
    );
    same_rest(", features: "@, from_features(x), from_features(y));
    opt_text_splits(
        x.features,
        y.features,
        ", manifest_hash: "@ + from_manifest_hash(x),
        ", manifest_hash: "@ + from_manifest_hash(y),
    );
    same_rest(", manifest_hash: "@, from_manifest_hash(x), from_manifest_hash(y));
    quoted_splits(
        x.manifest_hash,
        y.manifest_hash,
        ", script_hash: "@ + from_script_hash(x),
        ", script_hash: "@ + from_script_hash(y),
    );
    same_rest(", script_hash: "@, from_script_hash(x), from_script_hash(y));
    quoted_splits(x.script_hash, y.script_hash, " }"@, " }"@);
}

} // verus!

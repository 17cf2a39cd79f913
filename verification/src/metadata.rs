//! What is recorded of a generated package.
use vstd::prelude::*;
use vstd::string::*;
use crate::consts::DIGEST_INPUT_MAX;
use crate::digest;
use crate::error::{self, MainError, MainErrorView};
use crate::readback;
use crate::text;

verus! {

/// The metadata here serves two purposes:
///
/// 1. It records everything necessary for compilation and execution of a package.
/// 2. It records everything that must be exactly the same in order for a cached executable to
///    still be valid, in addition to the content hash.
#[derive(Debug)]
pub struct PackageMetadata {
    /// Path to the script file.
    pub path: Option<String>,
    /// Last-modified timestamp for script file.
    pub modified: Option<u128>,
    /// Template used.
    pub template: Option<String>,
    /// Was the script compiled in debug mode?
    pub debug: bool,
    /// Sorted list of dependencies.
    pub deps: Vec<(String, String)>,
    /// Sorted list of injected prelude items.
    pub prelude: Vec<String>,
    /// Cargo features
    pub features: Option<String>,
    /// Hash of the generated `Cargo.toml` file.
    pub manifest_hash: String,
    /// Hash of the generated source file.
    pub script_hash: String,
}

/// What a `PackageMetadata` says.
#[verifier::ext_equal]
pub struct PackageMetadataView {
    pub path: Option<Seq<char>>,
    pub modified: Option<u128>,
    pub template: Option<Seq<char>>,
    pub debug: bool,
    pub deps: Seq<(Seq<char>, Seq<char>)>,
    pub prelude: Seq<Seq<char>>,
    pub features: Option<Seq<char>>,
    pub manifest_hash: Seq<char>,
    pub script_hash: Seq<char>,
}

impl View for PackageMetadata {
    type V = PackageMetadataView;

    open spec fn view(&self) -> PackageMetadataView {
        PackageMetadataView {
            path: text::opt_text(self.path),
            modified: self.modified,
            template: text::opt_text(self.template),
            debug: self.debug,
            deps: text::text_pairs(self.deps@),
            prelude: text::texts(self.prelude@),
            features: text::opt_text(self.features),
            manifest_hash: self.manifest_hash@,
            script_hash: self.script_hash@,
        }
    }
}

/// Texts with commas between them.
pub open spec fn comma_separated(items: Seq<Seq<char>>) -> Seq<char>
    decreases items.len(),
{
    if items.len() == 0 {
        Seq::empty()
    } else if items.len() == 1 {
        items[0]
    } else {
        comma_separated(items.drop_last()) + ", "@ + items.last()
    }
}

/// The written form of an optional value, given that of the value.
pub open spec fn written_option(value: Option<Seq<char>>) -> Seq<char> {
    match value {
        Some(v) => "Some("@ + v + ")"@,
        None => "None"@,
    }
}

/// The written form of an optional text.
pub open spec fn written_opt_text(value: Option<Seq<char>>) -> Seq<char> {
    written_option(
        match value {
            Some(v) => Some(text::quoted(v)),
            None => None,
        },
    )
}

/// The written form of an optional number.
pub open spec fn written_opt_number(value: Option<u128>) -> Seq<char> {
    written_option(
        match value {
            Some(v) => Some(text::decimal(v as nat)),
            None => None,
        },
    )
}

/// The written form of a pair of texts.
pub open spec fn written_pair(pair: (Seq<char>, Seq<char>)) -> Seq<char> {
    "("@ + text::quoted(pair.0) + ", "@ + text::quoted(pair.1) + ")"@
}

/// The written form of a list, given those of its items.
pub open spec fn written_list(items: Seq<Seq<char>>) -> Seq<char> {
    "["@ + comma_separated(items) + "]"@
}

impl PackageMetadataView {
    /// The metadata, written out on one line in Rust's notation for a struct.
    pub open spec fn written(self) -> Seq<char> {
        "PackageMetadata { path: "@ + written_opt_text(self.path) + ", modified: "@
            + written_opt_number(self.modified) + ", template: "@ + written_opt_text(self.template)
            + (if self.debug {
            ", debug: true"@
        } else {
            ", debug: false"@
        }) + ", deps: "@ + written_list(
            self.deps.map_values(|p: (Seq<char>, Seq<char>)| written_pair(p)),
        ) + ", prelude: "@ + written_list(
            self.prelude.map_values(|s: Seq<char>| text::quoted(s)),
        ) + ", features: "@ + written_opt_text(self.features) + ", manifest_hash: "@ + text::quoted(
            self.manifest_hash,
        ) + ", script_hash: "@ + text::quoted(self.script_hash) + " }"@
    }

    /// Whether no other metadata is written out the same.
    pub open spec fn written_uniquely(self) -> bool {
        forall|other: PackageMetadataView|
            #[trigger] other.written() == self.written() ==> other == self
    }

    /// The hash of the metadata.
    pub open spec fn hash(self) -> Seq<char> {
        digest::sha1_hex(self.written())
    }

    /// The hash of the metadata, or the error where what is hashed is too long.
    pub open spec fn try_hash(self) -> Result<Seq<char>, MainErrorView> {
        if digest::digestible(self.written()) {
            Ok(self.hash())
        } else {
            Err(digest::too_long())
        }
    }
}

/// Whether two optional texts are the same.
fn same_opt_text(a: &Option<String>, b: &Option<String>) -> (r: bool)
    ensures
        r == (text::opt_text(*a) == text::opt_text(*b)),
{
    match (a, b) {
        (Some(x), Some(y)) => text::same_text(x.as_str(), y.as_str()),
        (None, None) => true,
        _ => false,
    }
}

/// A copy of an optional text.
pub(crate) fn copy_opt_text(a: &Option<String>) -> (r: Option<String>)
    ensures
        text::opt_text(r) == text::opt_text(*a),
{
    match a {
        Some(x) => Some(x.clone()),
        None => None,
    }
}

/// A copy of a list of texts.
pub(crate) fn copy_texts(v: &Vec<String>) -> (r: Vec<String>)
    ensures
        text::texts(r@) == text::texts(v@),
{
    let mut r: Vec<String> = Vec::new();
    let mut i: usize = 0;
    while i < v.len()
        invariant
            i <= v.len(),
            r@ == v@.take(i as int),
        decreases v.len() - i,
    {
        r.push(v[i].clone());
        assert(r@ =~= v@.take(i + 1));
        i = i + 1;
    }
    assert(r@ =~= v@);
    r
}

/// A copy of a list of pairs of texts.
pub(crate) fn copy_pairs(v: &Vec<(String, String)>) -> (r: Vec<(String, String)>)
    ensures
        text::text_pairs(r@) == text::text_pairs(v@),
{
    let mut r: Vec<(String, String)> = Vec::new();
    let mut i: usize = 0;
    while i < v.len()
        invariant
            i <= v.len(),
            r@ == v@.take(i as int),
        decreases v.len() - i,
    {
        r.push((v[i].0.clone(), v[i].1.clone()));
        assert(r@ =~= v@.take(i + 1));
        i = i + 1;
    }
    assert(r@ =~= v@);
    r
}

/// Whether two lists of texts are the same.
fn same_texts(a: &Vec<String>, b: &Vec<String>) -> (r: bool)
    ensures
        r == (text::texts(a@) == text::texts(b@)),
{
    let ghost x = text::texts(a@);
    let ghost y = text::texts(b@);
    assert(x.len() == a@.len() && y.len() == b@.len());
    if a.len() != b.len() {
        return false;
    }
    let mut i: usize = 0;
    while i < a.len()
        invariant
            i <= a.len(),
            a.len() == b.len(),
            x == text::texts(a@),
            y == text::texts(b@),
            x.take(i as int) == y.take(i as int),
        decreases a.len() - i,
    {
        assert(x[i as int] == a@[i as int]@ && y[i as int] == b@[i as int]@);
        if !text::same_text(a[i].as_str(), b[i].as_str()) {
            return false;
        }
        assert(x.take(i + 1) =~= x.take(i as int).push(x[i as int]));
        assert(y.take(i + 1) =~= y.take(i as int).push(y[i as int]));
        i = i + 1;
    }
    assert(x.take(i as int) =~= x);
    assert(y.take(i as int) =~= y);
    true
}

/// Whether two lists of pairs of texts are the same.
fn same_pairs(a: &Vec<(String, String)>, b: &Vec<(String, String)>) -> (r: bool)
    ensures
        r == (text::text_pairs(a@) == text::text_pairs(b@)),
{
    let ghost x = text::text_pairs(a@);
    let ghost y = text::text_pairs(b@);
    assert(x.len() == a@.len() && y.len() == b@.len());
    if a.len() != b.len() {
        return false;
    }
    let mut i: usize = 0;
    while i < a.len()
        invariant
            i <= a.len(),
            a.len() == b.len(),
            x == text::text_pairs(a@),
            y == text::text_pairs(b@),
            x.take(i as int) == y.take(i as int),
        decreases a.len() - i,
    {
        assert(x[i as int] == (a@[i as int].0@, a@[i as int].1@));
        assert(y[i as int] == (b@[i as int].0@, b@[i as int].1@));
        if !text::same_text(a[i].0.as_str(), b[i].0.as_str()) || !text::same_text(
            a[i].1.as_str(),
            b[i].1.as_str(),
        ) {
            return false;
        }
        assert(x.take(i + 1) =~= x.take(i as int).push(x[i as int]));
        assert(y.take(i + 1) =~= y.take(i as int).push(y[i as int]));
        i = i + 1;
    }
    assert(x.take(i as int) =~= x);
    assert(y.take(i as int) =~= y);
    true
}

/// Appends the written form of an optional value, given that of the value.
fn write_option(out: &mut String, value: Option<String>)
    ensures
        final(out)@ == old(out)@ + written_option(text::opt_text(value)),
{
    match value {
        Some(v) => {
            out.append("Some(");
            out.append(v.as_str());
            out.append(")");
        },
        None => out.append("None"),
    }
    assert(out@ =~= old(out)@ + written_option(text::opt_text(value)));
}

/// Appends the written form of an optional text.
fn write_opt_text(out: &mut String, value: &Option<String>)
    ensures
        final(out)@ == old(out)@ + written_opt_text(text::opt_text(*value)),
        text::opt_readable(text::opt_text(*value)),
{
    match value {
        Some(v) => write_option(out, Some(text::quoted_text(v.as_str()))),
        None => write_option(out, None),
    }
}

/// Appends the written form of a list, given those of its items.
fn write_list(out: &mut String, items: &Vec<String>)
    ensures
        final(out)@ == old(out)@ + written_list(text::texts(items@)),
{
    let ghost all = text::texts(items@);
    let ghost start = out@;
    out.append("[");
    let mut i: usize = 0;
    assert(all.take(0) =~= Seq::empty());
    assert(out@ =~= start + "["@ + comma_separated(all.take(0)));
    while i < items.len()
        invariant
            i <= items.len(),
            all == text::texts(items@),
            out@ == start + "["@ + comma_separated(all.take(i as int)),
        decreases items.len() - i,
    {
        let ghost upto = all.take(i + 1);
        assert(upto.drop_last() =~= all.take(i as int));
        assert(upto.last() == items@[i as int]@);
        if i > 0 {
            out.append(", ");
        }
        out.append(items[i].as_str());
        assert(out@ =~= start + "["@ + comma_separated(upto));
        i = i + 1;
    }
    assert(all.take(i as int) =~= all);
    out.append("]");
    assert(out@ =~= start + written_list(all));
}

impl Clone for PackageMetadata {
    fn clone(&self) -> (r: Self)
        ensures
            r@ == self@,
    {
        PackageMetadata {
            path: copy_opt_text(&self.path),
            modified: self.modified,
            template: copy_opt_text(&self.template),
            debug: self.debug,
            deps: copy_pairs(&self.deps),
            prelude: copy_texts(&self.prelude),
            features: copy_opt_text(&self.features),
            manifest_hash: self.manifest_hash.clone(),
            script_hash: self.script_hash.clone(),
        }
    }
}

impl PartialEq for PackageMetadata {
    fn eq(&self, other: &Self) -> (r: bool) {
        self.same(other)
    }
}

impl vstd::std_specs::cmp::PartialEqSpecImpl for PackageMetadata {
    open spec fn obeys_eq_spec() -> bool {
        true
    }

    open spec fn eq_spec(&self, other: &Self) -> bool {
        self@ == other@
    }
}

impl PackageMetadata {
    /// Whether two packages have the same metadata.
    fn same(&self, other: &PackageMetadata) -> (r: bool)
        ensures
            r == (self@ == other@),
    {
        same_opt_text(&self.path, &other.path) && self.modified == other.modified && same_opt_text(
            &self.template,
            &other.template,
        ) && self.debug == other.debug && same_pairs(&self.deps, &other.deps) && same_texts(
            &self.prelude,
            &other.prelude,
        ) && same_opt_text(&self.features, &other.features) && text::same_text(
            self.manifest_hash.as_str(),
            other.manifest_hash.as_str(),
        ) && text::same_text(self.script_hash.as_str(), other.script_hash.as_str())
    }

    /// The metadata, written out on one line in Rust's notation for a struct.  Different metadata
    /// is written differently.
    pub fn written(&self) -> (r: String)
        ensures
            r@ == self@.written(),
            self@.written_uniquely(),
    {
        let mut pairs: Vec<String> = Vec::new();
        let ghost all_pairs = self@.deps.map_values(|p: (Seq<char>, Seq<char>)| written_pair(p));
        let mut i: usize = 0;
        while i < self.deps.len()
            invariant
                i <= self.deps.len(),
                all_pairs == self@.deps.map_values(|p: (Seq<char>, Seq<char>)| written_pair(p)),
                text::texts(pairs@) == all_pairs.take(i as int),
                forall|j: int|
                    0 <= j < i ==> text::readable((#[trigger] self@.deps[j]).0) && text::readable(
                        self@.deps[j].1,
                    ),
            decreases self.deps.len() - i,
        {
            let mut pair: String = "(".to_owned();
            let name: String = text::quoted_text(self.deps[i].0.as_str());
            pair.append(name.as_str());
            pair.append(", ");
            let version: String = text::quoted_text(self.deps[i].1.as_str());
            pair.append(version.as_str());
            pair.append(")");
            let ghost said = pair@;
            let ghost before = text::texts(pairs@);
            assert(said =~= all_pairs[i as int]);
            pairs.push(pair);
            assert(text::texts(pairs@) =~= before.push(said));
            assert(all_pairs.take(i + 1) =~= all_pairs.take(i as int).push(said));
            i = i + 1;
        }
        assert(all_pairs.take(i as int) =~= all_pairs);
        let mut items: Vec<String> = Vec::new();
        let ghost all_items = self@.prelude.map_values(|s: Seq<char>| text::quoted(s));
        i = 0;
        while i < self.prelude.len()
            invariant
                i <= self.prelude.len(),
                all_items == self@.prelude.map_values(|s: Seq<char>| text::quoted(s)),
                text::texts(items@) == all_items.take(i as int),
                forall|j: int| 0 <= j < i ==> text::readable(#[trigger] self@.prelude[j]),
            decreases self.prelude.len() - i,
        {
            let item: String = text::quoted_text(self.prelude[i].as_str());
            let ghost said = item@;
            let ghost before = text::texts(items@);
            assert(said == all_items[i as int]);
            items.push(item);
            assert(text::texts(items@) =~= before.push(said));
            assert(all_items.take(i + 1) =~= all_items.take(i as int).push(said));
            i = i + 1;
        }
        assert(all_items.take(i as int) =~= all_items);
        let mut r: String = "PackageMetadata { path: ".to_owned();
        write_opt_text(&mut r, &self.path);
        r.append(", modified: ");
        match self.modified {
            Some(modified) => write_option(&mut r, Some(text::decimal_text(modified))),
            None => write_option(&mut r, None),
        }
        r.append(", template: ");
        write_opt_text(&mut r, &self.template);
        r.append(if self.debug { ", debug: true" } else { ", debug: false" });
        r.append(", deps: ");
        write_list(&mut r, &pairs);
        r.append(", prelude: ");
        write_list(&mut r, &items);
        r.append(", features: ");
        write_opt_text(&mut r, &self.features);
        r.append(", manifest_hash: ");
        let manifest_hash: String = text::quoted_text(self.manifest_hash.as_str());
        r.append(manifest_hash.as_str());
        r.append(", script_hash: ");
        let script_hash: String = text::quoted_text(self.script_hash.as_str());
        r.append(script_hash.as_str());
        r.append(" }");
        proof {
            assert(readback::all_readable(self@));
            assert forall|other: PackageMetadataView|
                #[trigger] other.written() == self@.written() implies other == self@ by {
                readback::metadata_reads_back(self@, other);
            }
        }
        r
    }

    /// The hash of the metadata, which is that of how it is written out.  What is hashed is
    /// different for different metadata.
    pub fn sha1_hash(&self) -> (r: String)
        requires
            digest::digestible(self@.written()),
        ensures
            r@ == self@.hash(),
            r@.len() == 40,
            forall|i: int| 0 <= i < r@.len() ==> digest::is_hex_digit(#[trigger] r@[i]),
            self@.written_uniquely(),
    {
        digest::hash_str(self.written().as_str())
    }

    /// The hash of the metadata, whatever its length: an error where it is too long.
    pub fn try_sha1_hash(&self) -> (r: Result<String, MainError>)
        ensures
            error::result_view(r) == self@.try_hash(),
            r matches Ok(h) ==> {
                &&& h@.len() == 40
                &&& forall|i: int| 0 <= i < h@.len() ==> digest::is_hex_digit(#[trigger] h@[i])
            },
            self@.written_uniquely(),
    {
        if self.written().as_str().as_bytes().len() as u64 <= DIGEST_INPUT_MAX {
            Ok(self.sha1_hash())
        } else {
            Err(MainError::internal("text is too long to hash"))
        }
    }
}

} // verus!

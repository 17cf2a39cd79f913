//! How metadata is written out.
use vstd::prelude::*;
use vstd::string::*;
use crate::metadata::{self, PackageMetadataView};
use crate::readback;
use crate::text;

verus! {

/// What is there is written in brackets of its own, what is not there as nothing.
pub proof fn options_are_written(value: Seq<char>, number: u128)
    ensures
        metadata::written_opt_text(Some(value)) == "Some("@ + text::quoted(value) + ")"@,
        metadata::written_opt_text(None) == "None"@,
        metadata::written_opt_number(Some(number)) == "Some("@ + text::decimal(number as nat)
            + ")"@,
        metadata::written_opt_number(None) == "None"@,
{
}

/// A list is written in square brackets, item by item, with a comma behind each but the last.
pub proof fn lists_are_written_item_by_item(first: Seq<char>, rest: Seq<Seq<char>>)
    ensures
        metadata::written_list(Seq::empty()) == "[]"@,
        metadata::written_list(seq![first]) == "["@ + first + "]"@,
        rest.len() > 0 ==> "["@ + metadata::written_list(seq![first] + rest).skip(1) == "["@ + first
            + ", "@ + metadata::written_list(rest).skip(1),
        metadata::written_list(rest).len() > 0 && metadata::written_list(rest)[0] == '[',
{
    reveal_strlit("[]");
    reveal_strlit("[");
    reveal_strlit("]");
    assert(metadata::written_list(Seq::empty()) =~= "[]"@);
    assert(metadata::written_list(seq![first]) =~= "["@ + first + "]"@);
    if rest.len() > 0 {
        let all = seq![first] + rest;
        readback::first_comes_first(all);
        assert(all.skip(1) =~= rest);
        let tail = metadata::comma_separated(rest) + "]"@;
        assert(metadata::written_list(all).skip(1) =~= first + ", "@ + tail);
        assert(metadata::written_list(rest).skip(1) =~= tail);
        assert("["@ + metadata::written_list(all).skip(1) =~= "["@ + first + ", "@
            + metadata::written_list(rest).skip(1));
    }
}

/// Metadata is written field by field, in the order and under the names that the fields have.
pub proof fn fields_are_written_in_order(m: PackageMetadataView)
    ensures
        m.written() == "PackageMetadata { path: "@ + metadata::written_opt_text(m.path)
            + ", modified: "@ + metadata::written_opt_number(m.modified) + ", template: "@
            + metadata::written_opt_text(m.template) + (if m.debug {
            ", debug: true"@
        } else {
            ", debug: false"@
        }) + ", deps: "@ + metadata::written_list(
            Seq::new(
                m.deps.len(),
                |i: int| "("@ + text::quoted(m.deps[i].0) + ", "@ + text::quoted(m.deps[i].1)
                    + ")"@,
            ),
        ) + ", prelude: "@ + metadata::written_list(
            Seq::new(m.prelude.len(), |i: int| text::quoted(m.prelude[i])),
        ) + ", features: "@ + metadata::written_opt_text(m.features) + ", manifest_hash: "@
            + text::quoted(m.manifest_hash) + ", script_hash: "@ + text::quoted(m.script_hash)
            + " }"@,
{
    assert(m.deps.map_values(|p: (Seq<char>, Seq<char>)| metadata::written_pair(p)) =~= Seq::new(
        m.deps.len(),
        |i: int| "("@ + text::quoted(m.deps[i].0) + ", "@ + text::quoted(m.deps[i].1) + ")"@,
    ));
    assert(m.prelude.map_values(|s: Seq<char>| text::quoted(s)) =~= Seq::new(
        m.prelude.len(),
        |i: int| text::quoted(m.prelude[i]),
    ));
}

} // verus!

//! What the command line means, and how the program ends.
use vstd::prelude::*;
use vstd::string::*;
use crate::args::{self, Matches};
use crate::build_kind::BuildKind;
use crate::error::{self, Blame, MainErrorView};
use crate::text;

verus! {

/// Each flag of the command line means itself, whatever the others are.
pub proof fn flags_mean_themselves(m: Matches)
    ensures
        m.meaning().expr <==> m.expr,
        m.meaning().loop_ <==> m.loop_,
        m.meaning().count <==> m.count,
        m.meaning().gen_pkg_only <==> m.gen_pkg_only,
        m.meaning().build_only <==> m.build_only,
        m.meaning().clear_cache <==> m.clear_cache,
        m.meaning().debug <==> m.debug,
        m.meaning().force <==> m.force,
{
}

/// Each value of the command line is taken over as it was given, and is missing where none was.
pub proof fn values_are_taken_over(m: Matches)
    ensures
        m.script is None <==> m.meaning().script is None,
        m.script matches Some(v) ==> m.meaning().script == Some(v@),
        m.features is None <==> m.meaning().features is None,
        m.features matches Some(v) ==> m.meaning().features == Some(v@),
        m.pkg_path is None <==> m.meaning().pkg_path is None,
        m.pkg_path matches Some(v) ==> m.meaning().pkg_path == Some(v@),
        m.template is None <==> m.meaning().template is None,
        m.template matches Some(v) ==> m.meaning().template == Some(v@),
{
}

/// Each list of the command line is taken over item by item, in the order given, and is empty where
/// none was given.
pub proof fn lists_are_taken_over(m: Matches, i: int)
    ensures
        m.args is None ==> m.meaning().args.len() == 0,
        m.args matches Some(v) ==> m.meaning().args.len() == v@.len() && (0 <= i < v@.len()
            ==> m.meaning().args[i] == v@[i]@),
        m.dep is None ==> m.meaning().dep.len() == 0,
        m.dep matches Some(v) ==> m.meaning().dep.len() == v@.len() && (0 <= i < v@.len()
            ==> m.meaning().dep[i] == v@[i]@),
        m.unstable_features is None ==> m.meaning().unstable_features.len() == 0,
        m.unstable_features matches Some(v) ==> m.meaning().unstable_features.len() == v@.len() && (
        0 <= i < v@.len() ==> m.meaning().unstable_features[i] == v@[i]@),
{
}

/// The binary cache is asked for by a yes and refused by a no, and nothing is said of it where the
/// option is not given.  Every yes or no, and no other word, makes sense.
pub proof fn binary_cache_is_a_yes_or_a_no(m: Matches)
    ensures
        m.use_bincache is None ==> m.meaning().use_bincache is None,
        m.use_bincache matches Some(v) ==> {
            &&& v@ == "yes"@ ==> m.meaning().use_bincache == Some(true)
            &&& v@ == "no"@ ==> m.meaning().use_bincache == Some(false)
        },
        m.consistent() <==> {
            &&& m.use_bincache matches Some(v) ==> v@ == "yes"@ || v@ == "no"@
            &&& !m.test || !m.bench
        },
{
    reveal_strlit("yes");
    reveal_strlit("no");
    assert("yes"@.len() != "no"@.len());
}

/// Tests are run exactly where `--test` is given, benchmarks exactly where `--bench` is, and the
/// script itself where neither is; what is run by Cargo is run by the subcommand of that name.
pub proof fn kinds_follow_the_flags(m: Matches)
    requires
        !(m.test && m.bench),
    ensures
        m.meaning().build_kind == BuildKind::Test <==> m.test,
        m.meaning().build_kind == BuildKind::Bench <==> m.bench,
        m.meaning().build_kind == BuildKind::Normal <==> !m.test && !m.bench,
        m.test ==> m.meaning().build_kind.command() == "test"@,
        m.bench ==> m.meaning().build_kind.command() == "bench"@,
{
}

/// A yes or a no on its own means what it says.
pub proof fn yes_is_not_no(v: Option<Seq<char>>)
    ensures
        v is None ==> args::is_yes_or_no(v) && args::yes_or_no_of(v) is None,
        v matches Some(s) ==> (args::is_yes_or_no(v) <==> s == "yes"@ || s == "no"@),
        v == Some("yes"@) ==> args::yes_or_no_of(v) == Some(true),
        v == Some("no"@) ==> args::yes_or_no_of(v) == Some(false),
{
    reveal_strlit("yes");
    reveal_strlit("no");
    assert("yes"@.len() != "no"@.len());
}

/// A run that succeeds ends with its own exit code, and nothing is printed; one that fails ends with
/// the exit code one and a line that holds the whole message, and tells who is to blame.
pub proof fn endings_report_results(code: i32, error: MainErrorView)
    ensures
        error::ending(Ok(code)) == (None::<Seq<char>>, code),
        error::ending(Err(error)).1 == 1,
        error::ending(Err(error)).0 matches Some(line) && line == (if error.blame == Blame::Human {
            "error: "@
        } else {
            "internal error: "@
        }) + error.message,
{
}

/// An error blames whom it is made to blame, and says what it is made to say.
pub proof fn errors_keep_their_message(message: Seq<char>)
    ensures
        error::internal(message).blame == Blame::Internal,
        error::internal(message).message == message,
        error::human(message).blame == Blame::Human,
        error::human(message).message == message,
{
}

/// The value of a text of digits.
pub open spec fn value_of(digits: Seq<char>) -> int
    decreases digits.len(),
{
    if digits.len() == 0 {
        0
    } else {
        10 * value_of(digits.drop_last()) + (digits.last() as int - '0' as int)
    }
}

/// A number in decimal is made of digits alone, starts with a zero only where it is zero, and has
/// the number as its value.
pub proof fn decimals_have_their_value(n: nat)
    ensures
        text::decimal(n).len() > 0,
        forall|i: int|
            0 <= i < text::decimal(n).len() ==> '0' <= #[trigger] text::decimal(n)[i] <= '9',
        text::decimal(n)[0] == '0' ==> n == 0 && text::decimal(n).len() == 1,
        value_of(text::decimal(n)) == n,
    decreases n,
{
    let s = text::decimal(n);
    if n < 10 {
        assert(s.drop_last() =~= Seq::empty());
        assert(value_of(s.drop_last()) == 0);
    } else {
        decimals_have_their_value(n / 10);
        assert(s.drop_last() =~= text::decimal(n / 10));
        assert(s[0] == text::decimal(n / 10)[0]);
    }
}

/// A negative number is written as the positive one with a minus sign in front.
pub proof fn negative_numbers_have_a_sign(n: nat)
    requires
        n > 0,
    ensures
        text::signed_decimal(n as int) == text::decimal(n),
        text::signed_decimal(0) == text::decimal(0),
        text::signed_decimal(-(n as int)) == seq!['-'] + text::decimal(n),
{
}

} // verus!

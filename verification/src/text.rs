//! Small operations on text that the rest of the crate shares.

use vstd::prelude::*;
use vstd::string::*;

verus! {

/// What `str::parse::<i32>` makes of a text: the number it spells, or `None`.
pub uninterp spec fn spec_parse_i32(text: Seq<char>) -> Option<i32>;

/// How the pretty `Debug` form (`{:#?}`) writes a list of strings.
pub uninterp spec fn spec_pretty_debug(items: Seq<Seq<char>>) -> Seq<char>;

/// `str`'s `==`: two texts are equal when they hold the same characters.
#[verifier::external_body]
pub(crate) fn str_eq(a: &str, b: &str) -> (r: bool)
    ensures
        r == (a@ == b@),
{
    a == b
}

/// `str::strip_prefix`: the rest of `s` behind `prefix`, or `None` where `s`
/// does not begin with it.
#[verifier::external_body]
pub(crate) fn strip_prefix<'a>(s: &'a str, prefix: &str) -> (r: Option<&'a str>)
    ensures
        match r {
            Some(rest) => s@ == prefix@ + rest@,
            None => !prefix@.is_prefix_of(s@),
        },
{
    s.strip_prefix(prefix)
}

/// `str::parse::<i32>`: the number is the one that [`spec_parse_i32`] names
/// for the text.
#[verifier::external_body]
pub(crate) fn parse_i32(text: &str) -> (r: Option<i32>)
    ensures
        r == spec_parse_i32(text@),
{
    text.parse::<i32>().ok()
}

/// `format!("{:#?}", ..)` on a list of strings: the text is the one that
/// [`spec_pretty_debug`] names for the list.
#[verifier::external_body]
pub(crate) fn pretty_debug(items: &Vec<String>) -> (r: String)
    ensures
        r@ == spec_pretty_debug(items.deep_view()),
{
    format!("{:#?}", items)
}

/// The concatenation of three texts.
pub fn join3(a: &str, b: &str, c: &str) -> (r: String)
    ensures
        r@ == a@ + b@ + c@,
{
    let mut out = String::from_str(a);
    out.append(b);
    out.append(c);
    out
}

/// `prefix + rest == s` leaves exactly one `rest`.
pub proof fn lemma_prefix_rest(s: Seq<char>, prefix: Seq<char>, rest: Seq<char>)
    requires
        s == prefix + rest,
    ensures
        prefix.is_prefix_of(s),
        rest == s.skip(prefix.len() as int),
{
    assert(s.subrange(0, prefix.len() as int) =~= prefix);
    assert(s.skip(prefix.len() as int) =~= rest);
}

} // verus!

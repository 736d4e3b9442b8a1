//! Lists of small numbers as JSON text, read and written by serde_json.

use crate::text::decimal;
use vstd::prelude::*;

verus! {

/// What `serde_json::from_str::<Vec<u8>>` makes of `text`: the numbers of
/// the JSON array, or none where it reports an error.
pub uninterp spec fn json_numbers(text: Seq<char>) -> Option<Seq<u8>>;

/// `serde_json::from_str` at `Vec<u8>`, its error dropped.
#[verifier::external_body]
pub(crate) fn parse_numbers(text: &str) -> (r: Option<Vec<u8>>)
    ensures
        match r {
            Some(v) => json_numbers(text@) == Some(v@),
            None => json_numbers(text@) is None,
        },
{
    serde_json::from_str::<Vec<u8>>(text).ok()
}

/// The numbers of `v` in decimal with a comma between each two.
pub open spec fn comma_separated(v: Seq<u8>) -> Seq<char>
    decreases v.len(),
{
    if v.len() == 0 {
        Seq::empty()
    } else if v.len() == 1 {
        decimal(v[0] as nat)
    } else {
        comma_separated(v.drop_last()) + seq![','] + decimal(v.last() as nat)
    }
}

/// The numbers of `v` as a JSON array without spaces: an opening bracket,
/// the numbers in decimal with a comma between each two, a closing bracket.
pub open spec fn number_list(v: Seq<u8>) -> Seq<char> {
    seq!['['] + comma_separated(v) + seq![']']
}

/// `serde_json::to_string` at `Vec<u8>`: the compact form of a JSON array,
/// which is an opening bracket, each number in decimal, a comma before each
/// but the first, and a closing bracket; `from_str` reads that text back as
/// the same numbers. Serializing integers cannot fail.
#[verifier::external_body]
pub(crate) fn write_numbers(v: &Vec<u8>) -> (r: String)
    ensures
        r@ == number_list(v@),
        json_numbers(r@) == Some(v@),
{
    serde_json::to_string(v).unwrap_or_default()
}

} // verus!

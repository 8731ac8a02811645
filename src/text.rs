use vstd::prelude::*;

use crate::error::DataError;

verus! {

/// The uppercase form of a text, as `str::to_uppercase` computes it with the
/// full Unicode case mapping.
pub uninterp spec fn upper_of(s: Seq<char>) -> Seq<char>;

/// Every character of `s` is an ASCII character.
pub open spec fn is_ascii_text(s: Seq<char>) -> bool {
    forall|i: int| 0 <= i < s.len() ==> (#[trigger] s[i]) as u32 <= 0x7f
}

/// `c` is one of the lowercase ASCII letters `a` to `z`.
pub open spec fn is_ascii_lower(c: char) -> bool {
    0x61 <= c as u32 <= 0x7a
}

/// The ASCII uppercase form of a character: `a`..`z` become `A`..`Z`, every
/// other character stays.
pub open spec fn ascii_upper_char(c: char) -> char {
    if is_ascii_lower(c) {
        ((c as u32) - 0x20) as char
    } else {
        c
    }
}

/// The ASCII uppercase form of a text, character by character.
pub open spec fn ascii_upper(s: Seq<char>) -> Seq<char> {
    s.map_values(|c: char| ascii_upper_char(c))
}

/// Relies on `str::to_uppercase`: the result depends on the characters alone,
/// and on ASCII text it maps `a`..`z` to `A`..`Z` and keeps every other character.
#[verifier::external_body]
fn uppercase(s: &str) -> (r: String)
    ensures
        r@ == upper_of(s@),
        is_ascii_text(s@) ==> r@ == ascii_upper(s@),
{
    s.to_uppercase()
}

/// Normalises a text to its uppercase form. It never fails.
pub fn process_data(data: &str) -> (r: Result<String, DataError>)
    ensures
        r is Ok,
        r->Ok_0@ == upper_of(data@),
        is_ascii_text(data@) ==> r->Ok_0@ == ascii_upper(data@),
        is_ascii_text(data@) ==> r->Ok_0@.len() == data@.len(),
        is_ascii_text(data@) ==> forall|i: int|
            0 <= i < r->Ok_0@.len() ==> !is_ascii_lower(#[trigger] r->Ok_0@[i]),
{
    let result = uppercase(data);
    proof {
        if is_ascii_text(data@) {
            lemma_ascii_upper_has_no_lower(data@);
        }
    }
    Ok(result)
}

/// On ASCII text, the uppercase form has the same length and no lowercase letter.
pub proof fn lemma_ascii_upper_has_no_lower(t: Seq<char>)
    requires
        is_ascii_text(t),
    ensures
        ascii_upper(t).len() == t.len(),
        forall|i: int| 0 <= i < t.len() ==> !is_ascii_lower(#[trigger] ascii_upper(t)[i]),
{
}

} // verus!

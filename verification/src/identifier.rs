//! Workload identifiers: random, effectively-unique correlation tokens in
//! hyphenated lowercase hexadecimal text form.

use vstd::prelude::*;

use crate::results;

verus! {

/// A character of an identifier's text form: a lowercase hexadecimal digit or
/// a hyphen.
pub open spec fn identifier_char(c: char) -> bool {
    c == '-' || ('0' <= c && c <= '9') || ('a' <= c && c <= 'f')
}

/// The text form of a workload identifier: 36 characters, each a lowercase
/// hexadecimal digit or a hyphen.
pub open spec fn valid_identifier(s: Seq<char>) -> bool {
    s.len() == 36 && forall|i: int| 0 <= i < s.len() ==> identifier_char(s[i])
}

/// Relies on `uuid::Uuid::new_v4` and the `Display` form of `Uuid`: a version
/// 4 UUID rendered as hyphenated lowercase hexadecimal, 36 characters long.
/// The value is random, so nothing is promised beyond its shape.
#[verifier::external_body]
pub(crate) fn generate_identifier() -> (r: String)
    ensures
        valid_identifier(r@),
{
    uuid::Uuid::new_v4().to_string()
}

/// A valid identifier never breaks the result sink's wire format: it holds no
/// line break and cannot begin with the multi-line marker.
pub proof fn lemma_identifier_is_result_value(s: Seq<char>)
    requires
        valid_identifier(s),
    ensures
        results::valid_result_value(s),
{
    assert(!s.contains('\n')) by {
        assert(forall|i: int| 0 <= i < s.len() ==> s[i] != '\n');
    }
    assert(s[0] != '<');
}

} // verus!

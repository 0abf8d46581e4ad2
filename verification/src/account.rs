//! Account identifiers: what makes one well formed.

use vstd::prelude::*;

verus! {

/// Whether `c` may stand anywhere in an account id: a lower-case letter or a digit.
pub open spec fn is_id_letter(c: char) -> bool {
    ('a' <= c <= 'z') || ('0' <= c <= '9')
}

/// Whether `c` separates two parts of an account id.
pub open spec fn is_id_separator(c: char) -> bool {
    c == '-' || c == '_' || c == '.'
}

/// An account id has 2 to 64 characters, all of them lower-case letters,
/// digits or separators; no separator starts or ends it, and no two
/// separators stand side by side.
pub open spec fn valid_account_id(id: Seq<char>) -> bool {
    &&& 2 <= id.len() <= 64
    &&& forall|i: int| 0 <= i < id.len() ==> is_id_letter(#[trigger] id[i]) || is_id_separator(id[i])
    &&& !is_id_separator(id[0])
    &&& !is_id_separator(id[id.len() - 1])
    &&& forall|i: int|
        0 <= i < id.len() - 1 ==> !(is_id_separator(#[trigger] id[i]) && is_id_separator(id[i + 1]))
}

/// Asks `near_sdk::AccountId::from_str` whether it accepts `id`. It accepts
/// exactly the ids that `valid_account_id` describes.
#[verifier::external_body]
pub(crate) fn accepted_account_id(id: &str) -> (r: bool)
    ensures
        r == valid_account_id(id@),
{
    id.parse::<near_sdk::AccountId>().is_ok()
}

} // verus!

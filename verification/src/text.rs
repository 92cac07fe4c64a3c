//! What this crate asks of `str` beyond what vstd specifies.

use vstd::prelude::*;

verus! {

/// Whether `text` begins with `prefix`.
///
/// Trusted: the body is `str::starts_with` with a string slice as the
/// pattern, which std documents as "returns `true` if the given pattern
/// matches a prefix of this string slice". The contract states that as a
/// prefix of characters, exact and case-sensitive.
#[verifier::external_body]
pub(crate) fn starts_with(text: &str, prefix: &str) -> (yes: bool)
    ensures
        yes == prefix@.is_prefix_of(text@),
{
    text.starts_with(prefix)
}

} // verus!

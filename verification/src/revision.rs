//! Truncation of a source-control revision identifier to a configured
//! number of characters.
//!
//! The identifier is taken as an opaque string of characters; truncation is
//! a prefix take, never padding, and an identifier already short enough is
//! returned unchanged.

use vstd::prelude::*;
use vstd::string::StrSliceExecFns;

verus! {

/// The truncation of a revision identifier to at most `n` characters:
/// the identifier itself when it fits, its first `n` characters otherwise.
pub open spec fn spec_truncate_rev(id: Seq<char>, n: nat) -> Seq<char> {
    if id.len() <= n {
        id
    } else {
        id.take(n as int)
    }
}

/// Truncates a revision identifier to at most `n` characters.
pub fn truncate_revision(id: &str, n: usize) -> (r: String)
    ensures
        r@ == spec_truncate_rev(id@, n as nat),
{
    let len = id.unicode_len();
    if len <= n {
        id.to_owned()
    } else {
        id.substring_char(0, n).to_owned()
    }
}

/// A truncation length at least the identifier's length returns the
/// identifier unchanged.
pub proof fn lemma_truncate_long_enough(id: Seq<char>, n: nat)
    requires
        id.len() <= n,
    ensures
        spec_truncate_rev(id, n) == id,
{
}

/// A truncation length below the identifier's length yields a revision of
/// exactly that length, and it is a prefix of the identifier.
pub proof fn lemma_truncate_short(id: Seq<char>, n: nat)
    requires
        n < id.len(),
    ensures
        spec_truncate_rev(id, n).len() == n,
        spec_truncate_rev(id, n) == id.take(n as int),
{
}

} // verus!

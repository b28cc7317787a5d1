use vstd::prelude::*;
use rand::distributions::{Alphanumeric, DistString};
use crate::text::owned;

verus! {

/// Number of random characters after the prefix of an identifier.
pub const SUFFIX_LEN: usize = 10;

/// An ASCII letter or digit.
pub open spec fn is_alphanumeric(c: char) -> bool {
    ||| ('A' <= c && c <= 'Z')
    ||| ('a' <= c && c <= 'z')
    ||| ('0' <= c && c <= '9')
}

/// The random part of an identifier: `SUFFIX_LEN` letters and digits.
pub open spec fn is_identifier_suffix(s: Seq<char>) -> bool {
    &&& s.len() == SUFFIX_LEN
    &&& forall|i: int| 0 <= i < s.len() ==> is_alphanumeric(#[trigger] s[i])
}

/// An identifier: a prefix naming the kind, a dash, and a suffix.
pub open spec fn identifier_of(prefix: Seq<char>, suffix: Seq<char>) -> Seq<char> {
    prefix + "-"@ + suffix
}

/// An identifier with the given prefix and a well-formed random suffix.
pub open spec fn is_fresh_identifier(id: Seq<char>, prefix: Seq<char>) -> bool {
    exists|s: Seq<char>| is_identifier_suffix(s) && id == identifier_of(prefix, s)
}

/// Relies on rand's `DistString::sample_string` for `Alphanumeric`, drawn
/// from the thread-local generator: it returns `len` characters, each one of
/// `A`-`Z`, `a`-`z` and `0`-`9`.
#[verifier::external_body]
fn random_alphanumeric(len: usize) -> (r: String)
    ensures
        r@.len() == len,
        forall|i: int| 0 <= i < r@.len() ==> is_alphanumeric(#[trigger] r@[i]),
{
    Alphanumeric.sample_string(&mut rand::thread_rng(), len)
}

/// A random suffix for a new identifier.
pub fn fresh_suffix() -> (r: String)
    ensures
        is_identifier_suffix(r@),
{
    random_alphanumeric(SUFFIX_LEN)
}

/// Joins `prefix` and `suffix` with a dash.
pub fn identifier(prefix: &str, suffix: &str) -> (r: String)
    ensures
        r@ == identifier_of(prefix@, suffix@),
{
    let mut id = owned(prefix);
    id.append("-");
    id.append(suffix);
    id
}

} // verus!

//! Thin trusted wrappers around the `String` editing calls the search
//! buffer needs and that vstd gives no specification for.

use vstd::prelude::*;

verus! {

/// What `str::trim` returns for a given character sequence.
pub uninterp spec fn trim_of(s: Seq<char>) -> Seq<char>;

/// Relies on `str::trim` (with `str::to_owned`): the returned string is the
/// input with leading and trailing whitespace removed, and depends on the
/// input characters alone.
#[verifier::external_body]
pub(crate) fn trimmed(s: &String) -> (r: String)
    ensures
        r@ == trim_of(s@),
{
    s.trim().to_owned()
}

/// Relies on `String::push`: appends the given character at the end.
#[verifier::external_body]
pub(crate) fn push_char(s: &mut String, ch: char)
    ensures
        final(s)@ == old(s)@.push(ch),
{
    s.push(ch);
}

/// Relies on `String::pop`: removes the last character, and does nothing on
/// an empty string.
#[verifier::external_body]
pub(crate) fn pop_char(s: &mut String)
    ensures
        old(s)@.len() == 0 ==> final(s)@ == old(s)@,
        old(s)@.len() > 0 ==> final(s)@ == old(s)@.drop_last(),
{
    s.pop();
}

} // verus!

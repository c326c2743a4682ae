//! Text building blocks shared by the library: appending characters and
//! strings.
use vstd::prelude::*;
use vstd::string::*;

verus! {

/// Appends one character with `String::push`; the contract is the one std
/// documents: the character lands at the end and nothing else changes.
#[verifier::external_body]
pub(crate) fn push_char(s: &mut String, c: char)
    ensures
        final(s)@ == old(s)@.push(c),
{
    s.push(c);
}

/// Appends `s` to `out`.
pub fn push_str(out: &mut String, s: &str)
    ensures
        final(out)@ == old(out)@ + s@,
{
    out.append(s);
}

} // verus!

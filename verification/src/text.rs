//! Helpers on strings and characters.

use vstd::prelude::*;

verus! {

/// `c` in upper case if it is an ASCII lower-case letter, else `c`.
pub open spec fn upper(c: char) -> char {
    if 'a' <= c && c <= 'z' {
        ((c as u8) - 32) as char
    } else {
        c
    }
}

/// `c` in lower case if it is an ASCII upper-case letter, else `c`.
pub open spec fn lower(c: char) -> char {
    if 'A' <= c && c <= 'Z' {
        ((c as u8) + 32) as char
    } else {
        c
    }
}

/// Computes [`upper`].
pub fn to_upper(c: char) -> (u: char)
    ensures
        u == upper(c),
{
    if 'a' <= c && c <= 'z' {
        ((c as u8) - 32) as char
    } else {
        c
    }
}

/// Computes [`lower`].
pub fn to_lower(c: char) -> (l: char)
    ensures
        l == lower(c),
{
    if 'A' <= c && c <= 'Z' {
        ((c as u8) + 32) as char
    } else {
        c
    }
}

/// `String::push`: appends one character.
#[verifier::external_body]
pub(crate) fn push_char(text: &mut String, c: char)
    ensures
        final(text)@ == old(text)@.push(c),
{
    text.push(c);
}

/// `text` without its underscores, each character that begins the text or
/// follows an underscore in upper case.
pub open spec fn pascal_case(text: Seq<char>) -> Seq<char>
    decreases text.len(),
{
    if text.len() == 0 {
        Seq::empty()
    } else {
        let before = text.drop_last();
        let c = text.last();
        if c == '_' {
            pascal_case(before)
        } else if before.len() == 0 || before.last() == '_' {
            pascal_case(before).push(upper(c))
        } else {
            pascal_case(before).push(c)
        }
    }
}

/// The key under which a descriptor lists a field named `text`:
/// [`pascal_case`] with its first character in lower case, so that
/// `auth_level` becomes `authLevel`.
pub open spec fn camel_case(text: Seq<char>) -> Seq<char> {
    let pascal = pascal_case(text);
    if pascal.len() == 0 {
        pascal
    } else {
        pascal.update(0, lower(pascal[0]))
    }
}

/// Whether two string slices hold the same characters.
pub fn same_text(a: &str, b: &str) -> (same: bool)
    ensures
        same == (a@ == b@),
{
    let left = a.to_owned();
    let right = b.to_owned();
    left == right
}

/// Renames a field from snake case to the camel case of descriptor keys.
pub fn to_camel_case(text: &str) -> (key: String)
    ensures
        key@ == camel_case(text@),
{
    let mut key = String::new();
    let mut started = false;
    let mut capitalize = true;
    for c in it: text.chars()
        invariant
            it.seq() == text@,
            key@ == camel_case(text@.take(it.index())),
            started == (pascal_case(text@.take(it.index())).len() > 0),
            capitalize == (it.index() == 0 || text@[it.index() - 1] == '_'),
    {
        proof {
            let done = text@.take(it.index());
            let next = text@.take(it.index() + 1);
            assert(next.drop_last() == done);
            assert(next.last() == c);
            assert(done.len() > 0 ==> done.last() == text@[it.index() - 1]);
        }
        if c == '_' {
            capitalize = true;
        } else {
            let shown = if capitalize { to_upper(c) } else { c };
            if started {
                push_char(&mut key, shown);
            } else {
                push_char(&mut key, to_lower(shown));
                started = true;
            }
            capitalize = false;
        }
    }
    assert(text@.take(text@.len() as int) == text@);
    key
}

} // verus!

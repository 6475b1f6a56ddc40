//! Character-level helpers for `String` values, and the few std string
//! operations that vstd does not specify.

use vstd::prelude::*;
use vstd::std_specs::iter::IteratorSpec;

verus! {

/// `String::push`: appends one character at the end of the string.
#[verifier::external_body]
pub(crate) fn push_char(s: &mut String, c: char)
    ensures
        final(s)@ == old(s)@.push(c),
{
    s.push(c);
}

/// The characters of `s`, in order.
pub fn chars_of(s: &str) -> (v: Vec<char>)
    ensures
        v@ == s@,
{
    broadcast use vstd::string::axiom_spec_iter, vstd::string::next_postcondition;
    let mut v: Vec<char> = Vec::new();
    let mut it = s.chars();
    loop
        invariant
            v@ + it.remaining() == s@,
            it.obeys_prophetic_iter_laws(),
            it.decrease() is Some,
        ensures
            v@ == s@,
        decreases it.decrease()->0,
    {
        match it.next() {
            Some(c) => {
                v.push(c);
            },
            None => {
                assert(v@ + it.remaining() =~= v@);
                break;
            },
        }
    }
    v
}


/// Appends the characters `v[from..]` to `out`.
pub(crate) fn push_chars_from(out: &mut String, v: &Vec<char>, from: usize)
    requires
        from <= v.len(),
    ensures
        final(out)@ == old(out)@ + v@.skip(from as int),
{
    let mut i = from;
    while i < v.len()
        invariant
            from <= i <= v.len(),
            out@ == old(out)@ + v@.subrange(from as int, i as int),
        decreases v.len() - i,
    {
        push_char(out, v[i]);
        assert(v@.subrange(from as int, i + 1) =~= v@.subrange(from as int, i as int).push(v@[i as int]));
        i = i + 1;
    }
    assert(v@.subrange(from as int, v.len() as int) =~= v@.skip(from as int));
}

/// Appends `t` to `out`.
pub fn push_str(out: &mut String, t: &str)
    ensures
        final(out)@ == old(out)@ + t@,
{
    let v = chars_of(t);
    push_chars_from(out, &v, 0);
    assert(v@.skip(0) =~= v@);
}

/// A new string holding the characters of `v`.
pub fn string_from_chars(v: &Vec<char>) -> (r: String)
    ensures
        r@ == v@,
{
    let mut r = String::new();
    push_chars_from(&mut r, v, 0);
    assert(v@.skip(0) =~= v@);
    r
}

/// A copy of `s` as an owned string.
pub fn owned(s: &str) -> (r: String)
    ensures
        r@ == s@,
{
    s.to_owned()
}

} // verus!

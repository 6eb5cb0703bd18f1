//! Building `String` values from verified character sequences.

use vstd::prelude::*;

verus! {

/// Relies on `alloc::string::String::push`: appends the given character to
/// the end of the string.
pub assume_specification[ String::push ](s: &mut String, ch: char)
    ensures
        final(s)@ == old(s)@.push(ch),
;

/// Builds the string holding exactly the characters of `chars`, in order.
pub fn string_of_chars(chars: &Vec<char>) -> (r: String)
    ensures
        r@ == chars@,
{
    let mut s = String::new();
    let mut i: usize = 0;
    while i < chars.len()
        invariant
            i <= chars.len(),
            s@ == chars@.subrange(0, i as int),
        decreases chars.len() - i,
    {
        s.push(chars[i]);
        i = i + 1;
        proof {
            assert(s@ =~= chars@.subrange(0, i as int));
        }
    }
    proof {
        assert(s@ =~= chars@);
    }
    s
}

/// Builds the vector holding the characters of `chars` in reverse order.
pub fn reverse_chars(chars: &Vec<char>) -> (r: Vec<char>)
    ensures
        r@ == chars@.reverse(),
{
    let mut out: Vec<char> = Vec::new();
    let mut i: usize = chars.len();
    while i > 0
        invariant
            i <= chars.len(),
            out@ =~= chars@.subrange(i as int, chars@.len() as int).reverse(),
        decreases i,
    {
        i = i - 1;
        out.push(chars[i]);
        proof {
            assert(out@ =~= chars@.subrange(i as int, chars@.len() as int).reverse());
        }
    }
    proof {
        assert(out@ =~= chars@.reverse());
    }
    out
}

} // verus!

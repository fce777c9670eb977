//! What the drawing of a screen needs worked out before any widget is made.

use crate::text::push_char;
use vstd::prelude::*;

verus! {

/// A run of `n` blanks.
pub open spec fn blanks(n: nat) -> Seq<char> {
    Seq::new(n, |i: int| ' ')
}

/// A text brought to at least `min_size` characters by blanks behind it. A
/// text that is long enough stays as it is.
pub open spec fn padded(s: Seq<char>, min_size: nat) -> Seq<char> {
    if s.len() >= min_size {
        s
    } else {
        s + blanks((min_size - s.len()) as nat)
    }
}

/// Pads a shown text with blanks up to `min_size` characters.
pub fn string_min_size(the_string: &mut String, min_size: usize)
    ensures
        final(the_string)@ == padded(old(the_string)@, min_size as nat),
{
    let ghost start = the_string@;
    let mut n = the_string.as_str().unicode_len();
    assert(the_string@ =~= start + blanks(0));
    while n < min_size
        invariant
            n == the_string@.len(),
            start.len() <= n,
            n <= min_size || n == start.len(),
            the_string@ == start + blanks((n - start.len()) as nat),
        decreases min_size - n,
    {
        let ghost before = the_string@;
        push_char(the_string, ' ');
        n = n + 1;
        assert(the_string@ =~= start + blanks((n - start.len()) as nat));
    }
    assert(the_string@ =~= padded(start, min_size as nat));
}

} // verus!

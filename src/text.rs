//! Character-level operations on text.

use vstd::prelude::*;

verus! {

/// Number of characters in `s`.
pub fn string_length(s: &str) -> (r: usize)
    ensures
        r == s@.len(),
{
    s.unicode_len()
}

/// Appends `suffix` to the end of `s`, in place, and returns the number of
/// characters `s` then holds.
pub fn append_and_count(s: &mut String, suffix: &str) -> (r: usize)
    ensures
        final(s)@ == old(s)@ + suffix@,
        r == final(s)@.len(),
{
    s.append(suffix);
    s.as_str().unicode_len()
}

/// Whether a character is exactly `c`.
pub open spec fn is_char(c: char) -> spec_fn(char) -> bool {
    |x: char| x == c
}

/// The number of positions of `s` that hold exactly `c`.
pub open spec fn occurrences(s: Seq<char>, c: char) -> nat {
    s.filter(is_char(c)).len()
}

/// Counts the occurrences of `c` in `s`: exact matches only, case-sensitive.
pub fn count_char(s: &str, c: char) -> (r: usize)
    ensures
        r == occurrences(s@, c),
{
    let n = s.unicode_len();
    let mut count: usize = 0;
    for ch in it: s.chars()
        invariant
            it.seq() == s@,
            n == s@.len(),
            count == occurrences(s@.take(it.index() as int), c),
            count <= it.index(),
    {
        proof {
            let i = it.index() as int;
            assert(s@.take(i + 1) =~= s@.take(i).push(ch));
            s@.take(i).lemma_filter_push(ch, is_char(c));
        }
        if ch == c {
            count = count + 1;
        }
    }
    assert(s@.take(s@.len() as int) =~= s@);
    count
}

} // verus!

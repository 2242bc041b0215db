//! Filtering a list of names by length and upper-casing the survivors.

use vstd::prelude::*;

verus! {

/// Shortest name, in characters, that `process_names` keeps.
pub const MIN_NAME_LEN: usize = 4;

/// Upper-case form of a character sequence, as the standard library computes it.
pub uninterp spec fn upper_of(s: Seq<char>) -> Seq<char>;

/// Relies on `str::to_uppercase`: its result depends on the characters of `s` alone.
#[verifier::external_body]
fn uppercase(s: &str) -> (r: String)
    ensures
        r@ == upper_of(s@),
{
    s.to_uppercase()
}

/// The character sequences held by a sequence of strings.
pub open spec fn texts(v: Seq<String>) -> Seq<Seq<char>> {
    v.map_values(|s: String| s@)
}

/// Whether a name is long enough to be kept.
pub open spec fn is_long(s: Seq<char>) -> bool {
    s.len() >= MIN_NAME_LEN
}

/// The names of `names` that are long enough, in their order, upper-cased.
pub open spec fn processed(names: Seq<Seq<char>>) -> Seq<Seq<char>> {
    names.filter(|s: Seq<char>| is_long(s)).map_values(|s: Seq<char>| upper_of(s))
}

/// Keeps the names of at least `MIN_NAME_LEN` characters, in their order, and
/// returns each of them upper-cased.
pub fn process_names(names: Vec<String>) -> (r: Vec<String>)
    ensures
        texts(r@) == processed(texts(names@)),
{
    let mut out: Vec<String> = Vec::new();
    let n = names.len();
    for i in 0..n
        invariant
            n == names@.len(),
            texts(out@) == processed(texts(names@.subrange(0, i as int))),
    {
        let name: &str = names[i].as_str();
        proof {
            let pre = texts(names@.subrange(0, i as int));
            let next = texts(names@.subrange(0, i + 1));
            assert(next =~= pre.push(names@[i as int]@));
            pre.lemma_filter_push(names@[i as int]@, |s: Seq<char>| is_long(s));
        }
        if name.unicode_len() >= MIN_NAME_LEN {
            let up = uppercase(name);
            out.push(up);
            proof {
                let kept = texts(names@.subrange(0, i as int)).filter(|s: Seq<char>| is_long(s));
                assert(kept.push(name@).map_values(|s: Seq<char>| upper_of(s)) =~= kept.map_values(
                    |s: Seq<char>| upper_of(s),
                ).push(upper_of(name@)));
            }
            assert(texts(out@) =~= processed(texts(names@.subrange(0, i + 1))));
        } else {
            assert(texts(out@) =~= processed(texts(names@.subrange(0, i + 1))));
        }
    }
    assert(names@.subrange(0, n as int) =~= names@);
    out
}

} // verus!

//! Properties that relate several calls of the operations.

use vstd::prelude::*;

use crate::contact::Contact;
use crate::divide::{divide_result, division_by_zero_msg, result_matches};
use crate::names::{processed, texts};
use crate::text::{is_char, occurrences};

verus! {

/// A zero divisor makes `divide_length` fail with the division-by-zero
/// message, whatever the input text is.
pub proof fn lemma_zero_divisor_fails(input: Option<&str>, r: Result<i32, String>)
    requires
        result_matches(r, divide_result(input, 0)),
    ensures
        r is Err,
        r->Err_0@ == division_by_zero_msg(),
{
}

/// Two calls of `divide_length` on the same input and divisor return the same result.
pub proof fn lemma_divide_length_repeats(
    input: Option<&str>,
    divisor: i32,
    r1: Result<i32, String>,
    r2: Result<i32, String>,
)
    requires
        result_matches(r1, divide_result(input, divisor)),
        result_matches(r2, divide_result(input, divisor)),
    ensures
        r1 is Ok <==> r2 is Ok,
        r1 is Ok ==> r1->Ok_0 == r2->Ok_0,
        r1 is Err ==> r1->Err_0@ == r2->Err_0@,
{
}

/// Two calls of `string_length` on the same text return the same count.
pub proof fn lemma_string_length_repeats(s: &str, r1: usize, r2: usize)
    requires
        r1 == s@.len(),
        r2 == s@.len(),
    ensures
        r1 == r2,
{
}

/// Two calls of `count_char` on the same text and character return the same count.
pub proof fn lemma_count_char_repeats(s: &str, c: char, r1: usize, r2: usize)
    requires
        r1 == occurrences(s@, c),
        r2 == occurrences(s@, c),
    ensures
        r1 == r2,
{
}

/// In a text made only of `c`, every character is an occurrence of `c`: the
/// count equals the length.
pub proof fn lemma_count_char_uniform(s: Seq<char>, c: char)
    requires
        forall|i: int| 0 <= i < s.len() ==> s[i] == c,
    ensures
        occurrences(s, c) == s.len(),
    decreases s.len(),
{
    if s.len() > 0 {
        let rest = s.drop_last();
        lemma_count_char_uniform(rest, c);
        assert(rest.push(s.last()) =~= s);
        rest.lemma_filter_push(s.last(), is_char(c));
    }
}

/// Two calls of `greet` on the same contact return the same text.
pub proof fn lemma_greet_repeats(c: &Contact, r1: String, r2: String)
    requires
        r1@ == c.greeting(),
        r2@ == c.greeting(),
    ensures
        r1@ == r2@,
{
}

/// Two calls of `process_names` on the same names return the same names.
pub proof fn lemma_process_names_repeats(names: Seq<String>, r1: Seq<String>, r2: Seq<String>)
    requires
        texts(r1) == processed(texts(names)),
        texts(r2) == processed(texts(names)),
    ensures
        texts(r1) == texts(r2),
{
}

/// `append_and_count` is not idempotent: appending the same suffix a second
/// time adds it once more, and with a non-empty suffix the text and the
/// returned count keep growing.
pub proof fn lemma_append_repeated_grows(
    a: Seq<char>,
    b: Seq<char>,
    once: Seq<char>,
    twice: Seq<char>,
    r1: usize,
    r2: usize,
)
    requires
        once == a + b,
        r1 == once.len(),
        twice == once + b,
        r2 == twice.len(),
    ensures
        twice == a + b + b,
        r2 == r1 + b.len(),
        b.len() > 0 ==> r2 > r1 && twice != once,
{
}

} // verus!

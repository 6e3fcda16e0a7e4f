//! Scalar field normalization: whitespace stripping, cropping to a
//! maximum length, and splitting a delimited line into fields.

use vstd::prelude::*;

verus! {

/// The character sequence with every space character removed.
pub open spec fn without_spaces(s: Seq<char>) -> Seq<char> {
    s.filter(|c: char| c != ' ')
}

/// The prefix of `s` of length `n`, or all of `s` when it is shorter.
pub open spec fn cropped(s: Seq<char>, n: int) -> Seq<char> {
    if n < s.len() {
        s.take(n)
    } else {
        s
    }
}

/// The fields obtained by cutting `rest` at every occurrence of `sep`,
/// given the part of the current field read so far (`cur`) and the
/// fields already completed (`done`).
pub open spec fn split_from(rest: Seq<char>, sep: char, cur: Seq<char>, done: Seq<Seq<char>>) -> Seq<
    Seq<char>,
>
    decreases rest.len(),
{
    if rest.len() == 0 {
        done.push(cur)
    } else if rest[0] == sep {
        split_from(rest.subrange(1, rest.len() as int), sep, Seq::empty(), done.push(cur))
    } else {
        split_from(rest.subrange(1, rest.len() as int), sep, cur.push(rest[0]), done)
    }
}

/// The fields of `s` split at every occurrence of `sep`.  A line with
/// no separator is one field; `k` separators give `k + 1` fields.
pub open spec fn split_fields(s: Seq<char>, sep: char) -> Seq<Seq<char>> {
    split_from(s, sep, Seq::empty(), Seq::empty())
}

/// Appends one character to a string.
///
/// Relies on std's `String::push`, which appends exactly the given
/// character at the end of the string.
#[verifier::external_body]
pub(crate) fn push_char(s: &mut String, c: char)
    ensures
        final(s)@ == old(s)@.push(c),
{
    s.push(c);
}

/// Removes every space character from a text field.
pub fn strip_spaces(s: &str) -> (r: String)
    ensures
        r@ == without_spaces(s@),
{
    let n = s.unicode_len();
    let mut r = String::new();
    let mut i: usize = 0;
    while i < n
        invariant
            n == s@.len(),
            i <= n,
            r@ == without_spaces(s@.subrange(0, i as int)),
        decreases n - i,
    {
        let c = s.get_char(i);
        if c != ' ' {
            push_char(&mut r, c);
        }
        proof {
            reveal(Seq::filter);
            assert(s@.subrange(0, i + 1).drop_last() =~= s@.subrange(0, i as int));
            assert(s@.subrange(0, i + 1).last() == s@[i as int]);
        }
        i = i + 1;
    }
    proof {
        assert(s@.subrange(0, n as int) =~= s@);
    }
    r
}

/// Crops a string to at most `size` characters: the string itself when
/// it already fits, otherwise its prefix of exactly `size` characters.
pub fn crop_string(s: &str, size: usize) -> (r: &str)
    ensures
        r@ == cropped(s@, size as int),
        r@.len() == (if (size as int) < s@.len() { size as int } else { s@.len() as int }),
        r@ == s@.take(r@.len() as int),
        size as int >= s@.len() ==> r@ == s@,
{
    let n = s.unicode_len();
    if size < n {
        let r = s.substring_char(0, size);
        proof {
            assert(s@.subrange(0, size as int) =~= s@.take(size as int));
        }
        r
    } else {
        proof {
            assert(s@.take(s@.len() as int) =~= s@);
        }
        s
    }
}

/// Splits a delimited line into its fields at every occurrence of the
/// single-character separator `sep`.
pub fn split_line(s: &str, sep: char) -> (r: Vec<String>)
    ensures
        r.deep_view() == split_fields(s@, sep),
{
    let n = s.unicode_len();
    let mut done: Vec<String> = Vec::new();
    let mut cur = String::new();
    let mut i: usize = 0;
    proof {
        assert(s@.subrange(0, n as int) =~= s@);
        assert(done.deep_view() =~= Seq::<Seq<char>>::empty());
    }
    while i < n
        invariant
            n == s@.len(),
            i <= n,
            split_from(s@.subrange(i as int, n as int), sep, cur@, done.deep_view())
                == split_fields(s@, sep),
        decreases n - i,
    {
        let ghost prev_done = done.deep_view();
        let ghost prev_cur = cur@;
        let ghost rest = s@.subrange(i as int, n as int);
        let c = s.get_char(i);
        if c == sep {
            done.push(cur);
            cur = String::new();
            proof {
                assert(done.deep_view() =~= prev_done.push(prev_cur));
            }
        } else {
            push_char(&mut cur, c);
        }
        proof {
            assert(rest.subrange(1, rest.len() as int) =~= s@.subrange(i + 1, n as int));
        }
        i = i + 1;
    }
    done.push(cur);
    done
}

/// Idempotence of whitespace stripping: a string that holds no space
/// character is returned unchanged.
pub proof fn lemma_strip_spaces_idempotent(s: Seq<char>)
    requires
        forall|i: int| 0 <= i < s.len() ==> s[i] != ' ',
    ensures
        without_spaces(s) == s,
    decreases s.len(),
{
    reveal(Seq::filter);
    if s.len() == 0 {
        assert(without_spaces(s) =~= s);
    } else {
        assert(forall|i: int| 0 <= i < s.drop_last().len() ==> s.drop_last()[i] != ' ');
        lemma_strip_spaces_idempotent(s.drop_last());
        assert(without_spaces(s) =~= s);
    }
}

/// Crop exactness: the cropped string is a prefix of the original and
/// has length `min(n, len)`; in particular a string no longer than the
/// limit is returned unchanged.
pub proof fn lemma_crop_exactness(s: Seq<char>, n: int)
    requires
        0 <= n,
    ensures
        cropped(s, n).len() == (if n < s.len() { n } else { s.len() as int }),
        cropped(s, n) == s.take(cropped(s, n).len() as int),
        n >= s.len() ==> cropped(s, n) == s,
{
    if n < s.len() {
    } else {
        assert(s.take(s.len() as int) =~= s);
    }
}

} // verus!

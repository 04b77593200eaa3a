//! Character-level text utilities: conversion between strings and
//! character vectors, substring removal, whitespace trimming, field
//! splitting and digit parsing.
//!
//! Everything here is stated over `Seq<char>` views, so the probe-output
//! parser and the title normalizer can carry exact contracts.

use vstd::prelude::*;
use vstd::string::StrSliceExecFns;

verus! {

/// Relies on String::push: appends one character to the end of the string.
#[verifier::external_body]
fn push_char(s: &mut String, c: char)
    ensures
        final(s)@ == old(s)@.push(c),
{
    s.push(c);
}

/// The characters of `s`, in order.
pub fn chars_of(s: &str) -> (r: Vec<char>)
    ensures
        r@ == s@,
{
    let n = s.unicode_len();
    let mut r: Vec<char> = Vec::new();
    let mut i: usize = 0;
    while i < n
        invariant
            n == s@.len(),
            i <= n,
            r@ == s@.subrange(0, i as int),
        decreases n - i,
    {
        let c = s.get_char(i);
        r.push(c);
        proof {
            assert(s@.subrange(0, (i + 1) as int) =~= s@.subrange(0, i as int).push(s@[i as int]));
        }
        i += 1;
    }
    proof {
        assert(s@.subrange(0, s@.len() as int) =~= s@);
    }
    r
}

/// The string holding exactly the characters of `v`.
pub fn string_of(v: &Vec<char>) -> (r: String)
    ensures
        r@ == v@,
{
    let mut r = String::new();
    let mut i: usize = 0;
    while i < v.len()
        invariant
            i <= v@.len(),
            r@ == v@.subrange(0, i as int),
        decreases v@.len() - i,
    {
        push_char(&mut r, v[i]);
        proof {
            assert(v@.subrange(0, (i + 1) as int) =~= v@.subrange(0, i as int).push(v@[i as int]));
        }
        i += 1;
    }
    proof {
        assert(v@.subrange(0, v@.len() as int) =~= v@);
    }
    r
}

/// Whether two character vectors hold the same text.
pub fn text_eq(a: &Vec<char>, b: &Vec<char>) -> (r: bool)
    ensures
        r == (a@ == b@),
{
    if a.len() != b.len() {
        return false;
    }
    let mut i: usize = 0;
    while i < a.len()
        invariant
            a@.len() == b@.len(),
            i <= a@.len(),
            forall|j: int| 0 <= j < i ==> a@[j] == b@[j],
        decreases a@.len() - i,
    {
        if a[i] != b[i] {
            return false;
        }
        i += 1;
    }
    proof {
        assert(a@ =~= b@);
    }
    true
}

/// `s` with every non-overlapping occurrence of `pat` removed, scanning
/// left to right.
pub open spec fn remove_occurrences(s: Seq<char>, pat: Seq<char>) -> Seq<char>
    decreases s.len(),
{
    if pat.len() == 0 || s.len() < pat.len() {
        s
    } else if s.subrange(0, pat.len() as int) == pat {
        remove_occurrences(s.skip(pat.len() as int), pat)
    } else {
        seq![s[0]] + remove_occurrences(s.skip(1), pat)
    }
}

fn matches_at(v: &Vec<char>, pat: &Vec<char>, i: usize) -> (b: bool)
    requires
        i <= v@.len(),
    ensures
        b == (i + pat@.len() <= v@.len() && v@.subrange(i as int, i + pat@.len()) == pat@),
{
    if v.len() - i < pat.len() {
        return false;
    }
    let n = v.len();
    let mut j: usize = 0;
    while j < pat.len()
        invariant
            n == v@.len(),
            i + pat@.len() <= n,
            j <= pat@.len(),
            forall|k: int| 0 <= k < j ==> v@[i + k] == pat@[k],
        decreases pat@.len() - j,
    {
        if v[i + j] != pat[j] {
            proof {
                assert(v@.subrange(i as int, i + pat@.len())[j as int] == v@[i + j]);
            }
            return false;
        }
        j += 1;
    }
    proof {
        assert(v@.subrange(i as int, i + pat@.len()) =~= pat@);
    }
    true
}

/// `v` with every non-overlapping occurrence of `pat` removed.
pub fn remove_all(v: &Vec<char>, pat: &Vec<char>) -> (r: Vec<char>)
    requires
        pat@.len() > 0,
    ensures
        r@ == remove_occurrences(v@, pat@),
{
    let mut out: Vec<char> = Vec::new();
    let mut i: usize = 0;
    proof {
        assert(v@.skip(0) =~= v@);
        assert(Seq::<char>::empty() + remove_occurrences(v@, pat@) =~= remove_occurrences(
            v@,
            pat@,
        ));
    }
    while i < v.len()
        invariant
            pat@.len() > 0,
            i <= v@.len(),
            remove_occurrences(v@, pat@) == out@ + remove_occurrences(v@.skip(i as int), pat@),
        decreases v@.len() - i,
    {
        let ghost s = v@.skip(i as int);
        if matches_at(v, pat, i) {
            proof {
                assert(s.subrange(0, pat@.len() as int) =~= v@.subrange(i as int, i + pat@.len()));
                assert(s.skip(pat@.len() as int) =~= v@.skip(i + pat@.len()));
            }
            i += pat.len();
        } else {
            proof {
                if s.len() >= pat@.len() {
                    assert(s.subrange(0, pat@.len() as int) =~= v@.subrange(
                        i as int,
                        i + pat@.len(),
                    ));
                    assert(s.subrange(0, pat@.len() as int) != pat@);
                }
                assert(s.skip(1) =~= v@.skip(i + 1));
                assert(s =~= seq![v@[i as int]] + s.skip(1));
                assert(remove_occurrences(s, pat@) == seq![v@[i as int]] + remove_occurrences(
                    v@.skip(i + 1),
                    pat@,
                ));
                assert(out@ + remove_occurrences(s, pat@) =~= out@.push(v@[i as int])
                    + remove_occurrences(v@.skip(i + 1), pat@));
            }
            out.push(v[i]);
            i += 1;
        }
    }
    proof {
        assert(v@.skip(v@.len() as int) =~= Seq::<char>::empty());
        assert(out@ + Seq::<char>::empty() =~= out@);
    }
    out
}

/// A whitespace character, as the trimming of probe fields understands
/// it.
pub open spec fn is_space_char(c: char) -> bool {
    c == ' ' || c == '\t' || c == '\n' || c == '\r'
}

/// `s` without its leading whitespace.
pub open spec fn trim_front_spec(s: Seq<char>) -> Seq<char>
    decreases s.len(),
{
    if s.len() > 0 && is_space_char(s[0]) {
        trim_front_spec(s.skip(1))
    } else {
        s
    }
}

/// `s` without its trailing whitespace.
pub open spec fn trim_back_spec(s: Seq<char>) -> Seq<char>
    decreases s.len(),
{
    if s.len() > 0 && is_space_char(s.last()) {
        trim_back_spec(s.drop_last())
    } else {
        s
    }
}

/// `s` without leading and trailing whitespace.
pub open spec fn trim_spec(s: Seq<char>) -> Seq<char> {
    trim_back_spec(trim_front_spec(s))
}

fn is_space(c: char) -> (b: bool)
    ensures
        b == is_space_char(c),
{
    c == ' ' || c == '\t' || c == '\n' || c == '\r'
}

/// `v` without leading and trailing whitespace.
pub fn trim(v: &Vec<char>) -> (r: Vec<char>)
    ensures
        r@ == trim_spec(v@),
{
    let mut start: usize = 0;
    proof {
        assert(v@.skip(0) =~= v@);
    }
    while start < v.len() && is_space(v[start])
        invariant
            start <= v@.len(),
            trim_front_spec(v@) == trim_front_spec(v@.skip(start as int)),
        decreases v@.len() - start,
    {
        proof {
            assert(v@.skip(start as int).skip(1) =~= v@.skip(start + 1));
        }
        start += 1;
    }
    proof {
        assert(trim_front_spec(v@) == v@.skip(start as int));
    }
    let mut end: usize = v.len();
    proof {
        assert(v@.skip(start as int) =~= v@.subrange(start as int, v@.len() as int));
    }
    while end > start && is_space(v[end - 1])
        invariant
            start <= end <= v@.len(),
            trim_back_spec(v@.skip(start as int)) == trim_back_spec(
                v@.subrange(start as int, end as int),
            ),
        decreases end,
    {
        proof {
            assert(v@.subrange(start as int, end as int).last() == v@[end - 1]);
            assert(v@.subrange(start as int, end as int).drop_last() =~= v@.subrange(
                start as int,
                end - 1,
            ));
        }
        end -= 1;
    }
    proof {
        assert(trim_back_spec(v@.subrange(start as int, end as int)) == v@.subrange(
            start as int,
            end as int,
        ));
    }
    let mut r: Vec<char> = Vec::new();
    let mut i: usize = start;
    while i < end
        invariant
            start <= i <= end <= v@.len(),
            r@ == v@.subrange(start as int, i as int),
        decreases end - i,
    {
        r.push(v[i]);
        proof {
            assert(v@.subrange(start as int, (i + 1) as int) =~= v@.subrange(
                start as int,
                i as int,
            ).push(v@[i as int]));
        }
        i += 1;
    }
    r
}

/// The fields of `s` split on `sep`: always at least one field, one more
/// field per separator.
pub open spec fn split_spec(s: Seq<char>, sep: char) -> Seq<Seq<char>>
    decreases s.len(),
{
    if s.len() == 0 {
        seq![Seq::<char>::empty()]
    } else if s[0] == sep {
        seq![Seq::<char>::empty()] + split_spec(s.skip(1), sep)
    } else {
        let rest = split_spec(s.skip(1), sep);
        seq![seq![s[0]] + rest[0]] + rest.skip(1)
    }
}

pub proof fn lemma_split_nonempty(s: Seq<char>, sep: char)
    ensures
        split_spec(s, sep).len() >= 1,
    decreases s.len(),
{
    if s.len() > 0 {
        lemma_split_nonempty(s.skip(1), sep);
    }
}

/// The views of a sequence of character vectors.
pub open spec fn views_of(s: Seq<Vec<char>>) -> Seq<Seq<char>> {
    s.map_values(|x: Vec<char>| x@)
}

/// The first field of `ss` extended at the front by `p`.
pub open spec fn prepend_first(p: Seq<char>, ss: Seq<Seq<char>>) -> Seq<Seq<char>> {
    seq![p + ss[0]] + ss.skip(1)
}

/// Splits `v` on the separator `sep`.
pub fn split_chars(v: &Vec<char>, sep: char) -> (r: Vec<Vec<char>>)
    ensures
        views_of(r@) == split_spec(v@, sep),
        r@.len() >= 1,
{
    let mut parts: Vec<Vec<char>> = Vec::new();
    let mut cur: Vec<char> = Vec::new();
    let mut i: usize = 0;
    proof {
        assert(v@.skip(0) =~= v@);
        lemma_split_nonempty(v@, sep);
        assert(views_of(Seq::<Vec<char>>::empty()) =~~= Seq::<Seq<char>>::empty());
        assert(prepend_first(Seq::<char>::empty(), split_spec(v@, sep)) =~~= split_spec(v@, sep));
        assert(views_of(Seq::<Vec<char>>::empty()) + prepend_first(
            Seq::<char>::empty(),
            split_spec(v@, sep),
        ) =~~= split_spec(v@, sep));
    }
    while i < v.len()
        invariant
            i <= v@.len(),
            split_spec(v@, sep) == views_of(parts@) + prepend_first(
                cur@,
                split_spec(v@.skip(i as int), sep),
            ),
        decreases v@.len() - i,
    {
        let ghost s = v@.skip(i as int);
        proof {
            assert(s.skip(1) =~= v@.skip(i + 1));
            lemma_split_nonempty(v@.skip(i + 1), sep);
        }
        if v[i] == sep {
            proof {
                let rest = split_spec(v@.skip(i + 1), sep);
                assert(split_spec(s, sep) == seq![Seq::<char>::empty()] + rest);
                assert(prepend_first(cur@, split_spec(s, sep)) =~~= seq![cur@] + rest);
                assert(prepend_first(Seq::<char>::empty(), rest) =~~= rest);
                assert(views_of(parts@.push(cur)) =~~= views_of(parts@).push(cur@));
                assert(views_of(parts@) + prepend_first(cur@, split_spec(s, sep))
                    =~~= views_of(parts@.push(cur)) + prepend_first(
                    Seq::<char>::empty(),
                    rest,
                ));
            }
            parts.push(cur);
            cur = Vec::new();
        } else {
            proof {
                let rest = split_spec(v@.skip(i + 1), sep);
                assert(split_spec(s, sep) == seq![seq![s[0]] + rest[0]] + rest.skip(1));
                assert(s[0] == v@[i as int]);
                assert(prepend_first(cur@, split_spec(s, sep)) =~~= prepend_first(
                    cur@.push(v@[i as int]),
                    rest,
                ));
            }
            let c = v[i];
            cur.push(c);
        }
        i += 1;
    }
    proof {
        assert(v@.skip(v@.len() as int) =~= Seq::<char>::empty());
        assert(prepend_first(cur@, split_spec(Seq::<char>::empty(), sep)) =~~= seq![cur@]);
        assert(views_of(parts@.push(cur)) =~~= views_of(parts@).push(cur@));
        assert(views_of(parts@) + seq![cur@] =~~= views_of(parts@).push(cur@));
        lemma_split_nonempty(v@, sep);
    }
    parts.push(cur);
    parts
}

/// A decimal digit.
pub open spec fn is_digit_char(c: char) -> bool {
    '0' <= c && c <= '9'
}

/// Every character of `s` is a decimal digit.
pub open spec fn all_digits(s: Seq<char>) -> bool {
    forall|i: int| 0 <= i < s.len() ==> is_digit_char(#[trigger] s[i])
}

/// The number written by the digits of `s`, most significant first.
pub open spec fn digits_val(s: Seq<char>) -> int
    decreases s.len(),
{
    if s.len() == 0 {
        0
    } else {
        digits_val(s.drop_last()) * 10 + (s.last() as u32 - '0' as u32)
    }
}

/// What a duration field parses to: the written number if the field is
/// nonempty, all digits and representable, and zero otherwise.
pub open spec fn parse_duration_spec(s: Seq<char>) -> u64 {
    if s.len() > 0 && all_digits(s) && digits_val(s) <= u64::MAX {
        digits_val(s) as u64
    } else {
        0
    }
}

proof fn lemma_digits_val_nonneg(s: Seq<char>)
    requires
        all_digits(s),
    ensures
        digits_val(s) >= 0,
    decreases s.len(),
{
    if s.len() > 0 {
        assert(all_digits(s.drop_last())) by {
            assert(forall|i: int|
                0 <= i < s.drop_last().len() ==> s.drop_last()[i] == s[i]);
        }
        lemma_digits_val_nonneg(s.drop_last());
    }
}

proof fn lemma_digits_val_prefix(s: Seq<char>, k: int)
    requires
        all_digits(s),
        0 <= k <= s.len(),
    ensures
        digits_val(s.subrange(0, k)) <= digits_val(s),
    decreases s.len() - k,
{
    if k < s.len() {
        assert(all_digits(s.drop_last())) by {
            assert(forall|i: int|
                0 <= i < s.drop_last().len() ==> s.drop_last()[i] == s[i]);
        }
        if k == s.len() - 1 {
            assert(s.subrange(0, k) =~= s.drop_last());
            lemma_digits_val_nonneg(s.drop_last());
        } else {
            assert(s.drop_last().subrange(0, k) =~= s.subrange(0, k));
            lemma_digits_val_prefix(s.drop_last(), k);
            lemma_digits_val_nonneg(s.drop_last());
        }
    } else {
        assert(s.subrange(0, k) =~= s);
    }
}

/// Parses a nonempty all-digit field as a number of seconds; anything
/// else, the empty field and a value over the representable range
/// included, parses to zero.
pub fn parse_seconds(v: &Vec<char>) -> (r: u64)
    ensures
        r == parse_duration_spec(v@),
{
    if v.len() == 0 {
        return 0;
    }
    let mut acc: u64 = 0;
    let mut i: usize = 0;
    while i < v.len()
        invariant
            0 < v@.len(),
            i <= v@.len(),
            all_digits(v@.subrange(0, i as int)),
            acc == digits_val(v@.subrange(0, i as int)),
        decreases v@.len() - i,
    {
        let c = v[i];
        if c < '0' || c > '9' {
            assert(!is_digit_char(v@[i as int]));
            return 0;
        }
        let d: u64 = (c as u32 - '0' as u32) as u64;
        let ghost prefix = v@.subrange(0, i as int);
        let ghost extended = v@.subrange(0, (i + 1) as int);
        proof {
            assert(extended.drop_last() =~= prefix);
            assert(extended.last() == v@[i as int]);
            assert(all_digits(extended)) by {
                assert(forall|j: int| 0 <= j < i ==> extended[j] == prefix[j]);
            }
            assert(digits_val(extended) == acc * 10 + d);
        }
        if acc > (u64::MAX - d) / 10 {
            proof {
                assert(acc * 10 + d > u64::MAX) by (nonlinear_arith)
                    requires
                        acc > (u64::MAX - d) / 10,
                        d <= 9,
                ;
                if all_digits(v@) && digits_val(v@) <= u64::MAX {
                    lemma_digits_val_prefix(v@, i + 1);
                    assert(digits_val(extended) <= digits_val(v@));
                }
            }
            return 0;
        }
        proof {
            assert(acc * 10 + d <= u64::MAX) by (nonlinear_arith)
                requires
                    acc <= (u64::MAX - d) / 10,
                    d <= 9,
            ;
        }
        acc = acc * 10 + d;
        i += 1;
    }
    proof {
        assert(v@.subrange(0, v@.len() as int) =~= v@);
    }
    acc
}

} // verus!

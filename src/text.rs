//! Character-sequence helpers shared by the parsers of this crate: conversion
//! between strings and character vectors, searching, splitting and decimal
//! numbers, each specified over `Seq<char>`.
use vstd::prelude::*;
use vstd::std_specs::iter::IteratorSpec;

verus! {

/// The characters of `s`, in order.
pub fn chars_of(s: &str) -> (r: Vec<char>)
    ensures
        r@ == s@,
{
    broadcast use vstd::string::group_string_axioms;

    let mut it = s.chars();
    let mut r: Vec<char> = Vec::new();
    loop
        invariant
            r@ + it.remaining() == s@,
            it.obeys_prophetic_iter_laws(),
            it.decrease() is Some,
        ensures
            r@ == s@,
        decreases it.decrease()->0,
    {
        match it.next() {
            Some(c) => {
                r.push(c);
            },
            None => {
                assert(r@ =~= s@);
                break;
            },
        }
    }
    r
}

/// Relies on `String: FromIterator<&char>`: the string made of the characters of `v`.
#[verifier::external_body]
pub fn string_of(v: &Vec<char>) -> (r: String)
    ensures
        r@ == v@,
{
    v.iter().collect()
}

/// The views of a sequence of character vectors.
pub open spec fn views(v: Seq<Vec<char>>) -> Seq<Seq<char>> {
    v.map_values(|p: Vec<char>| p@)
}

pub open spec fn str_views(v: Seq<String>) -> Seq<Seq<char>> {
    v.map_values(|p: String| p@)
}

/// `p` stands in `s` at position `i`.
pub open spec fn occurs_at(s: Seq<char>, p: Seq<char>, i: int) -> bool {
    0 <= i && i + p.len() <= s.len() && s.subrange(i, i + p.len()) == p
}

pub open spec fn contains(s: Seq<char>, p: Seq<char>) -> bool {
    exists|i: int| occurs_at(s, p, i)
}

/// `i` is the first position at which `p` stands in `s`.
pub open spec fn first_occurrence(s: Seq<char>, p: Seq<char>, i: int) -> bool {
    occurs_at(s, p, i) && forall|j: int| 0 <= j < i ==> !occurs_at(s, p, j)
}

/// The parts before and after the first occurrence of `p` in `s`.
pub open spec fn split_once(s: Seq<char>, p: Seq<char>) -> Option<(Seq<char>, Seq<char>)> {
    if contains(s, p) {
        let i = choose|i: int| first_occurrence(s, p, i);
        Some((s.subrange(0, i), s.subrange(i + p.len(), s.len() as int)))
    } else {
        None
    }
}

/// The pieces of `s` between the occurrences of `sep`; never empty.
pub open spec fn split(s: Seq<char>, sep: char) -> Seq<Seq<char>>
    decreases s.len(),
{
    if s.len() == 0 {
        seq![Seq::empty()]
    } else {
        let prev = split(s.drop_last(), sep);
        if s.last() == sep {
            prev.push(Seq::empty())
        } else {
            prev.update(prev.len() - 1, prev.last().push(s.last()))
        }
    }
}

proof fn lemma_first_occurrence_unique(s: Seq<char>, p: Seq<char>, i: int, k: int)
    requires
        first_occurrence(s, p, i),
        first_occurrence(s, p, k),
    ensures
        i == k,
{
}

/// Position of the first occurrence of `p` in `s`.
pub fn find(s: &Vec<char>, p: &Vec<char>) -> (r: Option<usize>)
    ensures
        match r {
            Some(i) => first_occurrence(s@, p@, i as int),
            None => !contains(s@, p@),
        },
{
    if p.len() > s.len() {
        assert forall|j: int| !occurs_at(s@, p@, j) by {}
        return None;
    }
    if p.len() == 0 {
        assert(s@.subrange(0, 0) =~= p@);
        return Some(0);
    }
    let n: usize = s.len();
    let last: usize = n - p.len();
    let mut i: usize = 0;
    while i <= last
        invariant
            n == s@.len(),
            p@.len() > 0,
            last + p@.len() == s@.len(),
            forall|j: int| 0 <= j < i ==> !occurs_at(s@, p@, j),
        decreases last + 1 - i,
    {
        let mut k: usize = 0;
        let mut same = true;
        while k < p.len()
            invariant
                i <= last,
                n == s@.len(),
                last + p@.len() == s@.len(),
                k <= p@.len(),
                same ==> forall|m: int| 0 <= m < k ==> s@[i + m] == p@[m],
                !same ==> !occurs_at(s@, p@, i as int),
            decreases p@.len() - k,
        {
            assert(i + k < s@.len());
            if s[i + k] != p[k] {
                same = false;
                assert(s@.subrange(i as int, i + p@.len())[k as int] != p@[k as int]);
            }
            k = k + 1;
        }
        if same {
            assert(s@.subrange(i as int, i + p@.len()) =~= p@);
            return Some(i);
        }
        i = i + 1;
    }
    assert forall|j: int| !occurs_at(s@, p@, j) by {}
    None
}

/// `p` occurs in `s`.
pub fn includes(s: &Vec<char>, p: &Vec<char>) -> (r: bool)
    ensures
        r == contains(s@, p@),
{
    match find(s, p) {
        Some(_) => true,
        None => false,
    }
}

/// The parts of `s` before and after the first occurrence of `p`.
pub fn split_once_at(s: &Vec<char>, p: &Vec<char>) -> (r: Option<(Vec<char>, Vec<char>)>)
    ensures
        match r {
            Some((a, b)) => split_once(s@, p@) == Some((a@, b@)),
            None => split_once(s@, p@).is_none(),
        },
{
    match find(s, p) {
        Some(i) => {
            let n: usize = s.len();
            assert(occurs_at(s@, p@, i as int));
            proof {
                let k = choose|k: int| first_occurrence(s@, p@, k);
                lemma_first_occurrence_unique(s@, p@, i as int, k);
            }
            let a = slice(s, 0, i);
            let b = slice(s, i + p.len(), n);
            Some((a, b))
        },
        None => None,
    }
}

/// The characters of `s` from `from` up to `to`.
pub fn slice(s: &Vec<char>, from: usize, to: usize) -> (r: Vec<char>)
    requires
        from <= to <= s@.len(),
    ensures
        r@ == s@.subrange(from as int, to as int),
{
    let mut r: Vec<char> = Vec::new();
    let mut i = from;
    while i < to
        invariant
            from <= i <= to <= s@.len(),
            r@ == s@.subrange(from as int, i as int),
        decreases to - i,
    {
        r.push(s[i]);
        i = i + 1;
    }
    r
}

/// The pieces of `s` between the occurrences of `sep`.
pub fn split_on(s: &Vec<char>, sep: char) -> (r: Vec<Vec<char>>)
    ensures
        views(r@) == split(s@, sep),
{
    let mut pieces: Vec<Vec<char>> = Vec::new();
    let mut cur: Vec<char> = Vec::new();
    let mut i: usize = 0;
    while i < s.len()
        invariant
            i <= s@.len(),
            split(s@.subrange(0, i as int), sep) == views(pieces@).push(cur@),
        decreases s@.len() - i,
    {
        let c = s[i];
        proof {
            assert(s@.subrange(0, i + 1).drop_last() =~= s@.subrange(0, i as int));
        }
        if c == sep {
            let ghost prev = pieces@;
            let done = cur;
            pieces.push(done);
            cur = Vec::new();
            assert(views(pieces@) =~= views(prev).push(done@));
        } else {
            cur.push(c);
        }
        i = i + 1;
        proof {
            let pre = s@.subrange(0, i as int);
            assert(pre.last() == c);
            assert(split(pre, sep) =~= views(pieces@).push(cur@));
        }
    }
    assert(s@.subrange(0, s@.len() as int) =~= s@);
    let ghost prev = pieces@;
    let last = cur;
    pieces.push(last);
    assert(views(pieces@) =~= views(prev).push(last@));
    pieces
}

/// The pieces among `lines` that are not empty, in order.
pub open spec fn non_empty(lines: Seq<Seq<char>>) -> Seq<Seq<char>>
    decreases lines.len(),
{
    if lines.len() == 0 {
        seq![]
    } else if lines.last().len() > 0 {
        non_empty(lines.drop_last()).push(lines.last())
    } else {
        non_empty(lines.drop_last())
    }
}

/// The pieces of `v` that are not empty, in order.
pub fn keep_non_empty(v: &Vec<Vec<char>>) -> (r: Vec<Vec<char>>)
    ensures
        views(r@) == non_empty(views(v@)),
{
    let mut r: Vec<Vec<char>> = Vec::new();
    let mut i: usize = 0;
    while i < v.len()
        invariant
            i <= v@.len(),
            views(r@) == non_empty(views(v@).subrange(0, i as int)),
        decreases v@.len() - i,
    {
        let ghost next = views(v@).subrange(0, i + 1);
        assert(next.drop_last() =~= views(v@).subrange(0, i as int));
        assert(next.last() == v@[i as int]@);
        if v[i].len() > 0 {
            let ghost prev = r@;
            r.push(slice(&v[i], 0, v[i].len()));
            assert(v@[i as int]@.subrange(0, v@[i as int]@.len() as int) =~= v@[i as int]@);
            assert(views(r@) =~= views(prev).push(v@[i as int]@));
        }
        i = i + 1;
    }
    assert(views(v@).subrange(0, v@.len() as int) =~= views(v@));
    r
}

pub open spec fn is_digit(c: char) -> bool {
    '0' <= c && c <= '9'
}

pub open spec fn all_digits(s: Seq<char>) -> bool {
    forall|i: int| 0 <= i < s.len() ==> is_digit(#[trigger] s[i])
}

/// The number that the decimal digits `s` write.
pub open spec fn decimal_value(s: Seq<char>) -> nat
    decreases s.len(),
{
    if s.len() == 0 {
        0
    } else {
        decimal_value(s.drop_last()) * 10 + ((s.last() as nat) - ('0' as nat)) as nat
    }
}

/// The unsigned decimal number that `s` writes, if it writes one no larger than `max`.
pub open spec fn parse_at_most(s: Seq<char>, max: nat) -> Option<nat> {
    if s.len() > 0 && all_digits(s) && decimal_value(s) <= max {
        Some(decimal_value(s))
    } else {
        None
    }
}

proof fn lemma_decimal_grows(s: Seq<char>, i: int)
    requires
        0 <= i <= s.len(),
        all_digits(s),
    ensures
        decimal_value(s.subrange(0, i)) <= decimal_value(s),
    decreases s.len() - i,
{
    if i < s.len() {
        lemma_decimal_grows(s, i + 1);
        let t = s.subrange(0, i + 1);
        assert(t.drop_last() =~= s.subrange(0, i));
        assert(is_digit(s[i]));
    } else {
        assert(s.subrange(0, i) =~= s);
    }
}

/// Reads an unsigned decimal number (digits only, no sign) no larger than `max`.
pub fn parse_decimal(s: &Vec<char>, max: u64) -> (r: Option<u64>)
    ensures
        match r {
            Some(v) => parse_at_most(s@, max as nat) == Some(v as nat),
            None => parse_at_most(s@, max as nat).is_none(),
        },
{
    if s.len() == 0 {
        return None;
    }
    let mut v: u128 = 0;
    let mut i: usize = 0;
    while i < s.len()
        invariant
            i <= s@.len(),
            s@.len() > 0,
            all_digits(s@.subrange(0, i as int)),
            v == decimal_value(s@.subrange(0, i as int)),
            v <= max,
        decreases s@.len() - i,
    {
        let c = s[i];
        let pre = Ghost(s@.subrange(0, i + 1));
        assert(pre@.drop_last() =~= s@.subrange(0, i as int));
        if c < '0' || c > '9' {
            assert(!all_digits(s@)) by {
                assert(!is_digit(s@[i as int]));
            }
            return None;
        }
        let d = (c as u32 - '0' as u32) as u128;
        v = v * 10 + d;
        i = i + 1;
        assert(all_digits(s@.subrange(0, i as int))) by {
            assert forall|j: int| 0 <= j < i implies is_digit(#[trigger] s@.subrange(0, i as int)[j]) by {
                if j < i - 1 {
                    assert(s@.subrange(0, i as int)[j] == s@.subrange(0, i - 1)[j]);
                }
            }
        }
        if v > max as u128 {
            proof {
                if all_digits(s@) {
                    lemma_decimal_grows(s@, i as int);
                }
            }
            return None;
        }
    }
    assert(s@.subrange(0, i as int) =~= s@);
    Some(v as u64)
}

/// `a` followed by `b`.
pub fn concat(a: &str, b: &str) -> (r: String)
    ensures
        r@ == a@ + b@,
{
    let mut v = chars_of(a);
    let w = chars_of(b);
    extend(&mut v, &w);
    string_of(&v)
}

/// `a/b`: the path `b` under the directory `a`.
pub fn join_path(a: &str, b: &str) -> (r: String)
    ensures
        r@ == a@ + "/"@ + b@,
{
    let mut v = chars_of(a);
    extend(&mut v, &chars_of("/"));
    extend(&mut v, &chars_of(b));
    string_of(&v)
}

/// `s` and `t` hold the same characters.
pub fn str_eq(s: &str, t: &str) -> (r: bool)
    ensures
        r == (s@ == t@),
{
    same_chars(&chars_of(s), &chars_of(t))
}

/// `c` is blank: a space, a tab, a line feed or a carriage return.
pub open spec fn is_blank(c: char) -> bool {
    c == ' ' || c == '\t' || c == '\n' || c == '\r'
}

/// `s` without the blanks at either end.
pub open spec fn trim(s: Seq<char>) -> Seq<char> {
    let a = choose|a: int| is_trim_start(s, a);
    let b = choose|b: int| is_trim_end(s, a, b);
    s.subrange(a, b)
}

pub open spec fn is_trim_start(s: Seq<char>, a: int) -> bool {
    0 <= a <= s.len() && (forall|j: int| 0 <= j < a ==> is_blank(#[trigger] s[j])) && (a == s.len()
        || !is_blank(s[a]))
}

pub open spec fn is_trim_end(s: Seq<char>, a: int, b: int) -> bool {
    a <= b <= s.len() && (forall|j: int| b <= j < s.len() ==> is_blank(#[trigger] s[j])) && (b == a
        || !is_blank(s[b - 1]))
}

/// `s` without the blanks at either end.
pub fn trimmed(s: &Vec<char>) -> (r: Vec<char>)
    ensures
        r@ == trim(s@),
{
    let mut a: usize = 0;
    while a < s.len() && (s[a] == ' ' || s[a] == '\t' || s[a] == '\n' || s[a] == '\r')
        invariant
            a <= s@.len(),
            forall|j: int| 0 <= j < a ==> is_blank(#[trigger] s@[j]),
        decreases s@.len() - a,
    {
        a = a + 1;
    }
    let mut b: usize = s.len();
    while b > a && (s[b - 1] == ' ' || s[b - 1] == '\t' || s[b - 1] == '\n' || s[b - 1] == '\r')
        invariant
            a <= b <= s@.len(),
            forall|j: int| b <= j < s@.len() ==> is_blank(#[trigger] s@[j]),
        decreases b,
    {
        b = b - 1;
    }
    proof {
        assert(is_trim_start(s@, a as int));
        let a2 = choose|a2: int| is_trim_start(s@, a2);
        assert(a2 == a) by {
            if a2 < a {
                assert(is_blank(s@[a2]));
            }
            if a < a2 {
                assert(is_blank(s@[a as int]));
            }
        }
        assert(is_trim_end(s@, a as int, b as int));
        let b2 = choose|b2: int| is_trim_end(s@, a as int, b2);
        assert(b2 == b) by {
            if b2 < b {
                assert(is_blank(s@[b - 1]));
            }
            if b < b2 {
                assert(is_blank(s@[b2 - 1]));
            }
        }
    }
    slice(s, a, b)
}

/// `t` and `u` hold the same characters.
pub fn same_chars(t: &Vec<char>, u: &Vec<char>) -> (r: bool)
    ensures
        r == (t@ == u@),
{
    if t.len() != u.len() {
        return false;
    }
    let mut i: usize = 0;
    while i < t.len()
        invariant
            i <= t@.len(),
            t@.len() == u@.len(),
            forall|j: int| 0 <= j < i ==> t@[j] == u@[j],
        decreases t@.len() - i,
    {
        if t[i] != u[i] {
            return false;
        }
        i = i + 1;
    }
    assert(t@ =~= u@);
    true
}

/// `v` followed by the characters of `w`.
pub fn extend(v: &mut Vec<char>, w: &Vec<char>)
    ensures
        final(v)@ == old(v)@ + w@,
{
    let mut i: usize = 0;
    let ghost start = v@;
    while i < w.len()
        invariant
            i <= w@.len(),
            v@ == start + w@.subrange(0, i as int),
        decreases w@.len() - i,
    {
        v.push(w[i]);
        i = i + 1;
    }
    assert(w@.subrange(0, w@.len() as int) =~= w@);
}

} // verus!

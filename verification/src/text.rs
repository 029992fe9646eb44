//! Character-level string helpers shared by the widgets and services.
use vstd::prelude::*;

verus! {

/// Integer division rounding toward zero, as Rust's `/` does on signed integers.
pub open spec fn trunc_div(a: int, b: int) -> int
    recommends
        b != 0,
{
    let q = abs(a) / abs(b);
    if (a >= 0) == (b >= 0) {
        q
    } else {
        -q
    }
}

/// The absolute value.
pub open spec fn abs(a: int) -> int {
    if a >= 0 {
        a
    } else {
        -a
    }
}

/// `p` is a prefix of `s`.
pub open spec fn is_prefix(p: Seq<char>, s: Seq<char>) -> bool {
    p.len() <= s.len() && s.subrange(0, p.len() as int) == p
}

/// `t` occurs in `s` starting at position `i`.
pub open spec fn occurs_at(s: Seq<char>, t: Seq<char>, i: int) -> bool {
    0 <= i && i + t.len() <= s.len() && s.subrange(i, i + t.len()) == t
}

/// `t` occurs somewhere in `s` (the empty sequence occurs in every sequence).
pub open spec fn contains_seq(s: Seq<char>, t: Seq<char>) -> bool {
    exists|i: int| occurs_at(s, t, i)
}

/// `i` is the first position where `t` occurs in `s`.
pub open spec fn is_first_occurrence(s: Seq<char>, t: Seq<char>, i: int) -> bool {
    occurs_at(s, t, i) && forall|j: int| 0 <= j < i ==> !occurs_at(s, t, j)
}

/// The first position where `t` occurs in `s`, if any.
pub open spec fn first_occurrence(s: Seq<char>, t: Seq<char>) -> Option<int> {
    if contains_seq(s, t) {
        Some(choose|i: int| is_first_occurrence(s, t, i))
    } else {
        None
    }
}

/// A first occurrence is the one `first_occurrence` names.
pub proof fn lemma_first_occurrence(s: Seq<char>, t: Seq<char>, i: int)
    requires
        is_first_occurrence(s, t, i),
    ensures
        first_occurrence(s, t) == Some(i),
{
    assert(contains_seq(s, t));
    let k = choose|k: int| is_first_occurrence(s, t, k);
    assert(is_first_occurrence(s, t, k));
    if k < i {
        assert(!occurs_at(s, t, k));
    } else if i < k {
        assert(!occurs_at(s, t, i));
    }
}

/// `s` with its prefix `p` removed, if `s` starts with `p`.
pub open spec fn strip_prefix_spec(s: Seq<char>, p: Seq<char>) -> Option<Seq<char>> {
    if is_prefix(p, s) {
        Some(s.subrange(p.len() as int, s.len() as int))
    } else {
        None
    }
}

/// `s` with every occurrence of the character `c` removed.
pub open spec fn remove_char_spec(s: Seq<char>, c: char) -> Seq<char> {
    s.filter(other_than(c))
}

/// The predicate "differs from `c`".
pub open spec fn other_than(c: char) -> spec_fn(char) -> bool {
    |x: char| x != c
}

/// The ASCII digits, indexed by their value.
pub open spec fn digits() -> Seq<char> {
    seq!['0', '1', '2', '3', '4', '5', '6', '7', '8', '9']
}

/// Decimal representation of a natural number, without leading zeros.
pub open spec fn decimal_nat(n: nat) -> Seq<char>
    decreases n,
{
    if n < 10 {
        seq![digits()[n as int]]
    } else {
        decimal_nat(n / 10) + seq![digits()[(n % 10) as int]]
    }
}

/// Decimal representation of an integer, with a leading `-` when negative
/// (what `Display` prints for an integer).
pub open spec fn decimal_int(v: int) -> Seq<char> {
    if v < 0 {
        seq!['-'] + decimal_nat((-v) as nat)
    } else {
        decimal_nat(v as nat)
    }
}

/// `s` right-aligned in a field of width two, filled with `'0'` (the `{:0>2}` format).
pub open spec fn pad_two(s: Seq<char>) -> Seq<char> {
    if s.len() >= 2 {
        s
    } else {
        Seq::new((2 - s.len()) as nat, |i: int| '0') + s
    }
}

/// The lower-case form of a string, as `str::to_lowercase` computes it.
pub uninterp spec fn lowercase_spec(s: Seq<char>) -> Seq<char>;

/// Lower-cases a string with `str::to_lowercase`. The result is named by
/// `lowercase_spec` of the characters; Unicode case mapping is not spelled out.
#[verifier::external_body]
pub(crate) fn to_lowercase(s: &str) -> (r: String)
    ensures
        r@ == lowercase_spec(s@),
{
    s.to_lowercase()
}

/// Appends one character to a string with `String::push`; the contract
/// claims the string afterwards holds its old characters and then `c`.
#[verifier::external_body]
pub(crate) fn push_char(s: &mut String, c: char)
    ensures
        final(s)@ == old(s)@.push(c),
{
    s.push(c);
}

/// The characters of a string slice.
pub fn chars_of(s: &str) -> (r: Vec<char>)
    ensures
        r@ == s@,
{
    let mut v: Vec<char> = Vec::new();
    for c in it: s.chars()
        invariant
            v@ == it.seq().take(it.index() as int),
    {
        v.push(c);
    }
    v
}

/// A string made of the given characters.
pub fn string_of(v: &Vec<char>) -> (r: String)
    ensures
        r@ == v@,
{
    let mut s = String::new();
    let mut i: usize = 0;
    while i < v.len()
        invariant
            i <= v.len(),
            s@ == v@.subrange(0, i as int),
        decreases v.len() - i,
    {
        push_char(&mut s, v[i]);
        i = i + 1;
        assert(s@ =~= v@.subrange(0, i as int));
    }
    assert(v@.subrange(0, v.len() as int) =~= v@);
    s
}

/// The digit character for a value below ten.
pub fn digit_char(d: u64) -> (c: char)
    requires
        d < 10,
    ensures
        c == digits()[d as int],
{
    if d == 0 {
        '0'
    } else if d == 1 {
        '1'
    } else if d == 2 {
        '2'
    } else if d == 3 {
        '3'
    } else if d == 4 {
        '4'
    } else if d == 5 {
        '5'
    } else if d == 6 {
        '6'
    } else if d == 7 {
        '7'
    } else if d == 8 {
        '8'
    } else {
        '9'
    }
}

/// Appends the decimal digits of `n`.
pub fn push_decimal_nat(v: &mut Vec<char>, n: u64)
    ensures
        final(v)@ == old(v)@ + decimal_nat(n as nat),
    decreases n,
{
    if n >= 10 {
        push_decimal_nat(v, n / 10);
    }
    v.push(digit_char(n % 10));
    assert(v@ =~= old(v)@ + decimal_nat(n as nat));
}

/// Decimal representation of a signed integer.
pub fn decimal_chars(x: i64) -> (r: Vec<char>)
    ensures
        r@ == decimal_int(x as int),
{
    let mut v: Vec<char> = Vec::new();
    if x < 0 {
        v.push('-');
        let magnitude: u64 = ((-(x + 1)) as u64) + 1;
        push_decimal_nat(&mut v, magnitude);
    } else {
        push_decimal_nat(&mut v, x as u64);
    }
    assert(v@ =~= decimal_int(x as int));
    v
}

/// Right-aligns `s` in a field of width two, filling with `'0'`.
pub fn pad_two_chars(s: Vec<char>) -> (r: Vec<char>)
    ensures
        r@ == pad_two(s@),
{
    if s.len() >= 2 {
        s
    } else {
        let mut r: Vec<char> = Vec::new();
        let mut k: usize = 0;
        while k < 2 - s.len()
            invariant
                s.len() < 2,
                k <= 2 - s.len(),
                r@ == Seq::new(k as nat, |i: int| '0'),
            decreases 2 - s.len() - k,
        {
            r.push('0');
            k = k + 1;
            assert(r@ =~= Seq::new(k as nat, |i: int| '0'));
        }
        let mut j: usize = 0;
        while j < s.len()
            invariant
                s.len() < 2,
                j <= s.len(),
                r@ == Seq::new((2 - s.len()) as nat, |i: int| '0') + s@.subrange(0, j as int),
            decreases s.len() - j,
        {
            r.push(s[j]);
            j = j + 1;
            assert(r@ =~= Seq::new((2 - s.len()) as nat, |i: int| '0') + s@.subrange(0, j as int));
        }
        assert(s@.subrange(0, s.len() as int) =~= s@);
        r
    }
}

/// Appends all characters of `t` to `v`.
pub fn append_chars(v: &mut Vec<char>, t: &Vec<char>)
    ensures
        final(v)@ == old(v)@ + t@,
{
    let mut j: usize = 0;
    while j < t.len()
        invariant
            j <= t.len(),
            v@ == old(v)@ + t@.subrange(0, j as int),
        decreases t.len() - j,
    {
        v.push(t[j]);
        j = j + 1;
        assert(v@ =~= old(v)@ + t@.subrange(0, j as int));
    }
    assert(t@.subrange(0, t.len() as int) =~= t@);
}

/// Whether `t` occurs in `s` at position `i`.
pub fn occurs_at_exec(s: &Vec<char>, t: &Vec<char>, i: usize) -> (r: bool)
    ensures
        r == occurs_at(s@, t@, i as int),
{
    if i > s.len() || t.len() > s.len() - i {
        return false;
    }
    let mut k: usize = 0;
    while k < t.len()
        invariant
            i + t.len() <= s.len(),
            k <= t.len(),
            forall|m: int| 0 <= m < k ==> s@[i + m] == t@[m],
        decreases t.len() - k,
    {
        if s[i + k] != t[k] {
            assert(s@.subrange(i as int, i + t.len())[k as int] != t@[k as int]);
            return false;
        }
        k = k + 1;
    }
    assert(s@.subrange(i as int, i + t.len()) =~= t@);
    true
}

/// Whether `p` is a prefix of `s`.
pub fn starts_with_chars(s: &Vec<char>, p: &Vec<char>) -> (r: bool)
    ensures
        r == is_prefix(p@, s@),
{
    occurs_at_exec(s, p, 0)
}

/// The position of the first occurrence of `t` in `s`, if any.
pub fn find_chars(s: &Vec<char>, t: &Vec<char>) -> (r: Option<usize>)
    ensures
        r matches Some(i) ==> occurs_at(s@, t@, i as int) && forall|j: int|
            0 <= j < i ==> !occurs_at(s@, t@, j),
        r is None ==> !contains_seq(s@, t@),
        r matches Some(i) ==> first_occurrence(s@, t@) == Some(i as int),
        r is None ==> first_occurrence(s@, t@) is None,
{
    if t.len() > s.len() {
        return None;
    }
    let last = s.len() - t.len();
    let mut i: usize = 0;
    while i <= last
        invariant
            last == s.len() - t.len(),
            t.len() <= s.len(),
            i <= last + 1,
            forall|j: int| 0 <= j < i ==> !occurs_at(s@, t@, j),
        decreases last + 1 - i,
    {
        if occurs_at_exec(s, t, i) {
            proof {
                lemma_first_occurrence(s@, t@, i as int);
            }
            return Some(i);
        }
        if i == last {
            assert forall|j: int| occurs_at(s@, t@, j) implies false by {
                assert(j <= last);
            }
            return None;
        }
        i = i + 1;
    }
    None
}

/// Whether `t` occurs anywhere in `s`.
pub fn contains_chars(s: &Vec<char>, t: &Vec<char>) -> (r: bool)
    ensures
        r == contains_seq(s@, t@),
{
    let f = find_chars(s, t);
    f.is_some()
}

/// `s` with the prefix `p` removed, if `s` starts with `p`.
pub fn strip_prefix_chars(s: &Vec<char>, p: &Vec<char>) -> (r: Option<Vec<char>>)
    ensures
        r matches Some(v) ==> strip_prefix_spec(s@, p@) == Some(v@),
        r is None ==> strip_prefix_spec(s@, p@) is None,
{
    if !starts_with_chars(s, p) {
        return None;
    }
    let mut v: Vec<char> = Vec::new();
    let mut j: usize = p.len();
    while j < s.len()
        invariant
            p.len() <= j <= s.len(),
            v@ == s@.subrange(p.len() as int, j as int),
        decreases s.len() - j,
    {
        v.push(s[j]);
        j = j + 1;
        assert(v@ =~= s@.subrange(p.len() as int, j as int));
    }
    Some(v)
}

/// `s` with every occurrence of `c` removed (`str::replace(c, "")`).
pub fn remove_char(s: &Vec<char>, c: char) -> (r: Vec<char>)
    ensures
        r@ == remove_char_spec(s@, c),
{
    let mut v: Vec<char> = Vec::new();
    let mut j: usize = 0;
    while j < s.len()
        invariant
            j <= s.len(),
            v@ == s@.subrange(0, j as int).filter(other_than(c)),
        decreases s.len() - j,
    {
        proof {
            let pre = s@.subrange(0, j as int);
            assert(s@.subrange(0, j + 1) =~= pre.push(s@[j as int]));
            pre.lemma_filter_push(s@[j as int], other_than(c));
        }
        if s[j] != c {
            v.push(s[j]);
        }
        j = j + 1;
    }
    assert(s@.subrange(0, s.len() as int) =~= s@);
    v
}

} // verus!

//! Character-level helpers shared by the request and response code.

use vstd::prelude::*;

verus! {

broadcast use vstd::string::group_string_axioms;

/// Copies the characters of `s` into a vector.
pub fn chars_of(s: &str) -> (r: Vec<char>)
    ensures
        r@ == s@,
{
    let mut out: Vec<char> = Vec::new();
    for c in it: s.chars()
        invariant
            out@ == it.seq().take(it.index() as int),
            it.seq() == s@,
    {
        out.push(c);
    }
    out
}

} // verus!

verus! {

/// `String::push`: appends one character.
#[verifier::external_body]
pub(crate) fn push_char(s: &mut String, c: char)
    ensures
        final(s)@ == old(s)@.push(c),
{
    s.push(c);
}

/// The code of `c` after ASCII lowercasing: 'A'..='Z' map to 'a'..='z',
/// every other character is left as it is.
pub open spec fn lower_code(c: char) -> u32 {
    if 65 <= (c as u32) <= 90 {
        ((c as u32) + 32) as u32
    } else {
        c as u32
    }
}

/// A character sequence with ASCII letters folded to lower case.
pub open spec fn lower_codes(s: Seq<char>) -> Seq<u32> {
    s.map_values(|c: char| lower_code(c))
}

/// Two strings are an ASCII case-insensitive match.
pub open spec fn ascii_ci_eq(a: Seq<char>, b: Seq<char>) -> bool {
    lower_codes(a) == lower_codes(b)
}

/// Whether `a` and `b` are equal once ASCII letters are folded to lower case.
pub fn eq_ignore_ascii_case(a: &str, b: &str) -> (r: bool)
    ensures
        r == ascii_ci_eq(a@, b@),
{
    let ca = chars_of(a);
    let cb = chars_of(b);
    if ca.len() != cb.len() {
        assert(lower_codes(a@).len() != lower_codes(b@).len());
        return false;
    }
    let mut i: usize = 0;
    while i < ca.len()
        invariant
            ca@ == a@,
            cb@ == b@,
            ca.len() == cb.len(),
            i <= ca.len(),
            forall|j: int| 0 <= j < i ==> lower_code(#[trigger] ca@[j]) == lower_code(cb@[j]),
        decreases ca.len() - i,
    {
        let x = ca[i] as u32;
        let y = cb[i] as u32;
        let lx: u32 = if 65 <= x && x <= 90 { x + 32 } else { x };
        let ly: u32 = if 65 <= y && y <= 90 { y + 32 } else { y };
        if lx != ly {
            assert(lower_codes(a@)[i as int] != lower_codes(b@)[i as int]);
            return false;
        }
        i = i + 1;
    }
    assert(lower_codes(a@) =~= lower_codes(b@));
    true
}

/// The ASCII digit for `d`, which is below ten.
pub open spec fn digit_char(d: nat) -> char {
    (48 + d) as char
}

/// The decimal spelling of a natural number, most significant digit first.
pub open spec fn decimal(n: nat) -> Seq<char>
    decreases n,
{
    if n < 10 {
        seq![digit_char(n)]
    } else {
        decimal(n / 10).push(digit_char(n % 10))
    }
}

/// The decimal spelling of an integer, with a leading '-' when negative.
pub open spec fn signed_decimal(n: int) -> Seq<char> {
    if n < 0 {
        seq!['-'] + decimal((-n) as nat)
    } else {
        decimal(n as nat)
    }
}

/// Appends the decimal spelling of `n`.
pub fn push_decimal(s: &mut String, n: u64)
    ensures
        final(s)@ == old(s)@ + decimal(n as nat),
    decreases n,
{
    if n >= 10 {
        push_decimal(s, n / 10);
    }
    let d: u8 = (n % 10) as u8;
    let c: char = (48u8 + d) as char;
    assert(c == digit_char((n % 10) as nat));
    push_char(s, c);
    assert(s@ =~= old(s)@ + decimal(n as nat));
}

/// Appends the decimal spelling of `n`, with a '-' in front when negative.
pub fn push_signed_decimal(s: &mut String, n: i64)
    ensures
        final(s)@ == old(s)@ + signed_decimal(n as int),
{
    if n < 0 {
        push_char(s, '-');
        let m: u64 = if n == i64::MIN { 9223372036854775808u64 } else { (-n) as u64 };
        push_decimal(s, m);
        assert(s@ =~= old(s)@ + signed_decimal(n as int));
    } else {
        push_decimal(s, n as u64);
    }
}

/// The decimal spelling of `n` as a new string.
pub fn decimal_string(n: u64) -> (r: String)
    ensures
        r@ == decimal(n as nat),
{
    let mut s = String::new();
    push_decimal(&mut s, n);
    assert(s@ =~= decimal(n as nat));
    s
}

/// Appends the characters of `t`.
pub fn push_str(s: &mut String, t: &str)
    ensures
        final(s)@ == old(s)@ + t@,
{
    let cs = chars_of(t);
    let mut i: usize = 0;
    while i < cs.len()
        invariant
            cs@ == t@,
            i <= cs.len(),
            s@ == old(s)@ + t@.take(i as int),
        decreases cs.len() - i,
    {
        push_char(s, cs[i]);
        i = i + 1;
        assert(s@ =~= old(s)@ + t@.take(i as int));
    }
    assert(t@.take(cs.len() as int) =~= t@);
}

/// The characters of `s` before the first `c` (all of `s` without one).
pub open spec fn before_first(s: Seq<char>, c: char) -> Seq<char>
    decreases s.len(),
{
    if s.len() == 0 || s[0] == c {
        Seq::empty()
    } else {
        seq![s[0]] + before_first(s.drop_first(), c)
    }
}

/// The characters of `s` after its `n`-th `c`, if `s` has that many.
pub open spec fn after_nth(s: Seq<char>, c: char, n: nat) -> Option<Seq<char>>
    decreases s.len(),
{
    if n == 0 {
        Some(s)
    } else if s.len() == 0 {
        None
    } else if s[0] == c {
        after_nth(s.drop_first(), c, (n - 1) as nat)
    } else {
        after_nth(s.drop_first(), c, n)
    }
}

/// The characters of `s` after its last `c`, if it has one.
pub open spec fn after_last(s: Seq<char>, c: char) -> Option<Seq<char>>
    decreases s.len(),
{
    if s.len() == 0 {
        None
    } else if s.last() == c {
        Some(Seq::empty())
    } else {
        match after_last(s.drop_last(), c) {
            Some(t) => Some(t.push(s.last())),
            None => None,
        }
    }
}

/// The position of the first `c` in `v`, or its length when there is none.
pub fn first_position(v: &Vec<char>, c: char) -> (k: usize)
    ensures
        k <= v@.len(),
        before_first(v@, c) == v@.take(k as int),
{
    let mut i: usize = 0;
    assert(v@.skip(0) =~= v@);
    assert(v@.take(0) + v@ =~= v@);
    while i < v.len()
        invariant
            i <= v@.len(),
            before_first(v@, c) == v@.take(i as int) + before_first(v@.skip(i as int), c),
        decreases v.len() - i,
    {
        let ghost rest = v@.skip(i as int);
        assert(rest.len() > 0 && rest[0] == v@[i as int]);
        if v[i] == c {
            assert(v@.take(i as int) + Seq::<char>::empty() =~= v@.take(i as int));
            return i;
        }
        assert(rest.drop_first() =~= v@.skip(i + 1));
        assert(v@.take(i as int) + seq![v@[i as int]] =~= v@.take(i + 1));
        i = i + 1;
    }
    assert(v@.skip(i as int).len() == 0);
    assert(v@.take(i as int) + Seq::<char>::empty() =~= v@.take(i as int));
    i
}

/// Where the text after the `n`-th `c` of `v` starts, if `v` has that many.
pub fn position_after_nth(v: &Vec<char>, c: char, n: usize) -> (r: Option<usize>)
    requires
        n > 0,
    ensures
        match r {
            Some(k) => k <= v@.len() && after_nth(v@, c, n as nat) == Some(v@.skip(k as int)),
            None => after_nth(v@, c, n as nat) is None,
        },
{
    let mut i: usize = 0;
    let mut left: usize = n;
    assert(v@.skip(0) =~= v@);
    while i < v.len()
        invariant
            i <= v@.len(),
            0 < left <= n,
            after_nth(v@, c, n as nat) == after_nth(v@.skip(i as int), c, left as nat),
        decreases v.len() - i,
    {
        let ghost rest = v@.skip(i as int);
        assert(rest.drop_first() =~= v@.skip(i + 1));
        if v[i] == c {
            left = left - 1;
            i = i + 1;
            if left == 0 {
                return Some(i);
            }
        } else {
            i = i + 1;
        }
    }
    None
}

/// Where the text after the last `c` of `v` starts, if `v` has one.
pub fn position_after_last(v: &Vec<char>, c: char) -> (r: Option<usize>)
    ensures
        match r {
            Some(k) => 0 < k <= v@.len() && after_last(v@, c) == Some(v@.skip(k as int)),
            None => after_last(v@, c) is None,
        },
{
    let mut i: usize = 0;
    let mut last: Option<usize> = None;
    while i < v.len()
        invariant
            i <= v@.len(),
            match last {
                Some(k) => 0 < k <= i && after_last(v@.take(i as int), c) == Some(
                    v@.subrange(k as int, i as int),
                ),
                None => after_last(v@.take(i as int), c) is None,
            },
        decreases v.len() - i,
    {
        assert(v@.take(i + 1).drop_last() =~= v@.take(i as int));
        if v[i] == c {
            last = Some(i + 1);
            assert(v@.subrange(i + 1, i + 1) =~= Seq::<char>::empty());
        } else {
            match last {
                Some(k) => {
                    assert(v@.subrange(k as int, i as int).push(v@[i as int]) =~= v@.subrange(
                        k as int,
                        i + 1,
                    ));
                },
                None => {},
            }
        }
        i = i + 1;
    }
    assert(v@.take(i as int) =~= v@);
    match last {
        Some(k) => {
            assert(v@.subrange(k as int, i as int) =~= v@.skip(k as int));
        },
        None => {},
    }
    last
}

/// A new string holding `v[from..to]`.
pub fn string_of_range(v: &Vec<char>, from: usize, to: usize) -> (r: String)
    requires
        from <= to <= v@.len(),
    ensures
        r@ == v@.subrange(from as int, to as int),
{
    let mut s = String::new();
    let mut i: usize = from;
    while i < to
        invariant
            from <= i <= to <= v@.len(),
            s@ == v@.subrange(from as int, i as int),
        decreases to - i,
    {
        push_char(&mut s, v[i]);
        assert(v@.subrange(from as int, i as int).push(v@[i as int]) =~= v@.subrange(
            from as int,
            i + 1,
        ));
        i = i + 1;
    }
    s
}

/// Whether `v[from..to]` spells `lit`.
pub fn range_equals(v: &Vec<char>, from: usize, to: usize, lit: &str) -> (r: bool)
    requires
        from <= to <= v@.len(),
    ensures
        r == (v@.subrange(from as int, to as int) == lit@),
{
    let l = chars_of(lit);
    if to - from != l.len() {
        return false;
    }
    let mut i: usize = 0;
    while i < l.len()
        invariant
            l@ == lit@,
            to - from == l@.len(),
            from <= to <= v@.len(),
            i <= l@.len(),
            forall|j: int| 0 <= j < i ==> v@[from + j] == l@[j],
        decreases l.len() - i,
    {
        if v[from + i] != l[i] {
            assert(v@.subrange(from as int, to as int)[i as int] != lit@[i as int]);
            return false;
        }
        i = i + 1;
    }
    assert(v@.subrange(from as int, to as int) =~= lit@);
    true
}

/// Whether `v[from..]` starts with `lit`.
pub fn starts_with_at(v: &Vec<char>, from: usize, lit: &str) -> (r: bool)
    requires
        from <= v@.len(),
    ensures
        r == (lit@.len() <= v@.len() - from && v@.subrange(from as int, from + lit@.len()) == lit@),
{
    let l = chars_of(lit);
    if l.len() > v.len() - from {
        return false;
    }
    range_equals(v, from, from + l.len(), lit)
}

/// `v[..k]` as a new vector.
pub fn prefix_chars(v: &Vec<char>, k: usize) -> (r: Vec<char>)
    requires
        k <= v@.len(),
    ensures
        r@ == v@.take(k as int),
{
    let mut out: Vec<char> = Vec::new();
    let mut i: usize = 0;
    while i < k
        invariant
            i <= k <= v@.len(),
            out@ == v@.take(i as int),
        decreases k - i,
    {
        out.push(v[i]);
        assert(v@.take(i as int).push(v@[i as int]) =~= v@.take(i + 1));
        i = i + 1;
    }
    out
}

/// When `s` holds no `c` and `t` starts with one, the text before the first
/// `c` of `s + t` is `s`.
pub proof fn lemma_before_first_concat(s: Seq<char>, t: Seq<char>, c: char)
    requires
        !s.contains(c),
        t.len() > 0,
        t[0] == c,
    ensures
        before_first(s + t, c) == s,
    decreases s.len(),
{
    if s.len() == 0 {
        assert(s + t =~= t);
    } else {
        assert((s + t)[0] == s[0]);
        assert((s + t).drop_first() =~= s.drop_first() + t);
        assert(!s.drop_first().contains(c)) by {
            if s.drop_first().contains(c) {
                let j = choose|j: int| 0 <= j < s.drop_first().len() && s.drop_first()[j] == c;
                assert(s[j + 1] == c);
            }
        }
        lemma_before_first_concat(s.drop_first(), t, c);
        assert(seq![s[0]] + s.drop_first() =~= s);
    }
}

/// When `s` holds no `c`, the text before the first `c` is all of `s`.
pub proof fn lemma_before_first_absent(s: Seq<char>, c: char)
    requires
        !s.contains(c),
    ensures
        before_first(s, c) == s,
    decreases s.len(),
{
    if s.len() > 0 {
        assert(!s.drop_first().contains(c)) by {
            if s.drop_first().contains(c) {
                let j = choose|j: int| 0 <= j < s.drop_first().len() && s.drop_first()[j] == c;
                assert(s[j + 1] == c);
            }
        }
        lemma_before_first_absent(s.drop_first(), c);
        assert(seq![s[0]] + s.drop_first() =~= s);
    }
}

} // verus!

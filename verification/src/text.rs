//! Character-level text helpers shared by the code generators: appending,
//! decimal rendering and ASCII character classes.

use vstd::prelude::*;
use vstd::string::*;

verus! {

/// Appends one character to a string (std's `String::push`).
#[verifier::external_body]
pub fn push_char(s: &mut String, c: char)
    ensures
        final(s)@ == old(s)@.push(c),
{
    s.push(c);
}

/// Appends a string slice.
pub fn push_str(s: &mut String, t: &str)
    ensures
        final(s)@ == old(s)@ + t@,
{
    s.append(t);
}

/// A fresh string holding the characters of `t`.
pub fn owned(t: &str) -> (s: String)
    ensures
        s@ == t@,
{
    t.to_owned()
}

/// The characters of a string slice, in order.
pub fn chars_of(s: &str) -> (v: Vec<char>)
    ensures
        v@ == s@,
{
    let mut v: Vec<char> = Vec::new();
    for c in it: s.chars()
        invariant
            v@ == it.seq().take(it.index() as int),
    {
        v.push(c);
    }
    v
}

/// The digit character for a value below ten.
pub open spec fn digit_char(d: nat) -> char {
    if d == 0 { '0' } else if d == 1 { '1' } else if d == 2 { '2' } else if d == 3 { '3' }
    else if d == 4 { '4' } else if d == 5 { '5' } else if d == 6 { '6' } else if d == 7 { '7' }
    else if d == 8 { '8' } else { '9' }
}

/// The decimal rendering of a natural number, without leading zeros.
pub open spec fn decimal(n: nat) -> Seq<char>
    decreases n,
{
    if n < 10 {
        seq![digit_char(n)]
    } else {
        decimal(n / 10).push(digit_char(n % 10))
    }
}

fn digit_of(d: u64) -> (c: char)
    requires
        d < 10,
    ensures
        c == digit_char(d as nat),
{
    if d == 0 { '0' } else if d == 1 { '1' } else if d == 2 { '2' } else if d == 3 { '3' }
    else if d == 4 { '4' } else if d == 5 { '5' } else if d == 6 { '6' } else if d == 7 { '7' }
    else if d == 8 { '8' } else { '9' }
}

/// Appends the decimal rendering of `n`.
pub fn push_decimal(s: &mut String, n: u64)
    ensures
        final(s)@ == old(s)@ + decimal(n as nat),
    decreases n,
{
    if n < 10 {
        push_char(s, digit_of(n));
    } else {
        push_decimal(s, n / 10);
        push_char(s, digit_of(n % 10));
    }
}

/// `c` is an ASCII letter.
pub open spec fn is_ascii_alpha(c: char) -> bool {
    ('a' <= c && c <= 'z') || ('A' <= c && c <= 'Z')
}

/// `c` is an ASCII letter or digit.
pub open spec fn is_ascii_alnum(c: char) -> bool {
    is_ascii_alpha(c) || ('0' <= c && c <= '9')
}

pub fn ascii_alpha(c: char) -> (b: bool)
    ensures
        b == is_ascii_alpha(c),
{
    ('a' <= c && c <= 'z') || ('A' <= c && c <= 'Z')
}

pub fn ascii_alnum(c: char) -> (b: bool)
    ensures
        b == is_ascii_alnum(c),
{
    ('a' <= c && c <= 'z') || ('A' <= c && c <= 'Z') || ('0' <= c && c <= '9')
}

} // verus!

verus! {

/// What `char::to_uppercase` yields for a character.
pub uninterp spec fn uppercase_of(c: char) -> Seq<char>;

/// The upper-case mapping of an ASCII character: `a`-`z` become `A`-`Z`,
/// the others stay.
pub open spec fn ascii_upper(c: char) -> char {
    if 'a' <= c && c <= 'z' {
        ((c as u32) - 32) as char
    } else {
        c
    }
}

/// std's `char::to_uppercase`, collected into a string. Its contract names
/// the result and states the documented ASCII case (the lower-case letters
/// map to the upper-case ones, other ASCII characters to themselves).
#[verifier::external_body]
fn uppercase(c: char) -> (u: String)
    ensures
        u@ == uppercase_of(c),
        (c as u32) < 128 ==> u@ == seq![ascii_upper(c)],
{
    c.to_uppercase().collect()
}

/// Appends the upper-case mapping of `c`.
pub fn push_uppercase(s: &mut String, c: char)
    ensures
        final(s)@ == old(s)@ + uppercase_of(c),
        (c as u32) < 128 ==> final(s)@ == old(s)@.push(ascii_upper(c)),
{
    let u = uppercase(c);
    push_str(s, u.as_str());
}

} // verus!

verus! {

/// The parts joined by `sep`, as `[a, b, c].join(sep)` does.
pub open spec fn join(parts: Seq<Seq<char>>, sep: Seq<char>) -> Seq<char>
    decreases parts.len(),
{
    if parts.len() == 0 {
        Seq::empty()
    } else if parts.len() == 1 {
        parts[0]
    } else {
        join(parts.drop_last(), sep) + sep + parts.last()
    }
}

/// The views of a list of strings.
pub open spec fn views(v: Seq<String>) -> Seq<Seq<char>> {
    v.map_values(|s: String| s@)
}

/// Joins the strings of `parts` with `sep`.
pub fn join_strings(parts: &Vec<String>, sep: &str) -> (r: String)
    ensures
        r@ == join(views(parts@), sep@),
{
    let mut r = String::new();
    let mut i: usize = 0;
    while i < parts.len()
        invariant
            i <= parts.len(),
            r@ == join(views(parts@).take(i as int), sep@),
        decreases parts.len() - i,
    {
        proof {
            assert(views(parts@).take(i + 1).drop_last() == views(parts@).take(i as int));
        }
        if i > 0 {
            push_str(&mut r, sep);
        }
        push_str(&mut r, parts[i].as_str());
        i += 1;
    }
    proof {
        assert(views(parts@).take(parts@.len() as int) == views(parts@));
    }
    r
}

} // verus!

verus! {

/// A newline or a space.
pub open spec fn is_nl_or_space(c: char) -> bool {
    c == '\n' || c == ' '
}

/// `s` without its leading newlines and spaces.
pub open spec fn trim_start_nl_sp(s: Seq<char>) -> Seq<char>
    decreases s.len(),
{
    if s.len() > 0 && is_nl_or_space(s[0]) {
        trim_start_nl_sp(s.drop_first())
    } else {
        s
    }
}

/// `s` without its trailing newlines and spaces.
pub open spec fn trim_end_nl_sp(s: Seq<char>) -> Seq<char>
    decreases s.len(),
{
    if s.len() > 0 && is_nl_or_space(s.last()) {
        trim_end_nl_sp(s.drop_last())
    } else {
        s
    }
}

/// `s` without leading and trailing newlines and spaces, as
/// `trim_matches(|c| c == '\n' || c == ' ')` does.
pub open spec fn trim_nl_sp(s: Seq<char>) -> Seq<char> {
    trim_end_nl_sp(trim_start_nl_sp(s))
}

/// The characters `v[from..to]` as a string.
pub fn string_of_range(v: &Vec<char>, from: usize, to: usize) -> (s: String)
    requires
        from <= to <= v@.len(),
    ensures
        s@ == v@.subrange(from as int, to as int),
{
    let mut s = String::new();
    let mut k = from;
    while k < to
        invariant
            from <= k <= to <= v@.len(),
            s@ == v@.subrange(from as int, k as int),
        decreases to - k,
    {
        push_char(&mut s, v[k]);
        proof {
            assert(v@.subrange(from as int, k + 1) == v@.subrange(from as int, k as int).push(v@[k as int]));
        }
        k += 1;
    }
    s
}

proof fn lemma_trim_start_skip(s: Seq<char>, i: int)
    requires
        0 <= i <= s.len(),
        forall|k: int| 0 <= k < i ==> is_nl_or_space(#[trigger] s[k]),
    ensures
        trim_start_nl_sp(s) == trim_start_nl_sp(s.subrange(i, s.len() as int)),
    decreases i,
{
    if i > 0 {
        assert(s.drop_first().subrange(i - 1, s.drop_first().len() as int) == s.subrange(i, s.len() as int));
        lemma_trim_start_skip(s.drop_first(), i - 1);
    } else {
        assert(s.subrange(0, s.len() as int) == s);
    }
}

proof fn lemma_trim_end_skip(s: Seq<char>, j: int)
    requires
        0 <= j <= s.len(),
        forall|k: int| j <= k < s.len() ==> is_nl_or_space(#[trigger] s[k]),
    ensures
        trim_end_nl_sp(s) == trim_end_nl_sp(s.subrange(0, j)),
    decreases s.len() - j,
{
    if j < s.len() {
        assert(s.drop_last().subrange(0, j) == s.subrange(0, j));
        lemma_trim_end_skip(s.drop_last(), j);
    } else {
        assert(s.subrange(0, j) == s);
    }
}

/// `v[from..to]` without leading and trailing newlines and spaces.
pub fn trimmed_range(v: &Vec<char>, from: usize, to: usize) -> (s: String)
    requires
        from <= to <= v@.len(),
    ensures
        s@ == trim_nl_sp(v@.subrange(from as int, to as int)),
{
    let ghost w = v@.subrange(from as int, to as int);
    let mut a = from;
    while a < to && (v[a] == '\n' || v[a] == ' ')
        invariant
            from <= a <= to <= v@.len(),
            w == v@.subrange(from as int, to as int),
            forall|k: int| 0 <= k < a - from ==> is_nl_or_space(#[trigger] w[k]),
        decreases to - a,
    {
        a += 1;
    }
    proof {
        lemma_trim_start_skip(w, a - from);
        assert(w.subrange(a - from, w.len() as int) == v@.subrange(a as int, to as int));
        let u = v@.subrange(a as int, to as int);
        if u.len() > 0 {
            assert(u[0] == v@[a as int]);
        }
    }
    let mut b = to;
    while b > a && (v[b - 1] == '\n' || v[b - 1] == ' ')
        invariant
            from <= a <= b <= to <= v@.len(),
            forall|k: int| b - a <= k < to - a ==> is_nl_or_space(
                #[trigger] v@.subrange(a as int, to as int)[k],
            ),
        decreases b - a,
    {
        b -= 1;
    }
    proof {
        let u = v@.subrange(a as int, to as int);
        lemma_trim_end_skip(u, b - a);
        assert(u.subrange(0, b - a) == v@.subrange(a as int, b as int));
        let x = v@.subrange(a as int, b as int);
        if x.len() > 0 {
            assert(x.last() == v@[b - 1]);
        }
    }
    string_of_range(v, a, b)
}

} // verus!

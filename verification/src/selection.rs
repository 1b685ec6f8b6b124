//! Byte offsets of a selection, mapped to the characters of the source.

use vstd::prelude::*;
use vstd::utf8::{char_is_scalar, encode_scalar, encode_utf8};

verus! {

/// Number of bytes of the UTF-8 encoding of `c`.
pub open spec fn utf8_width(c: char) -> int {
    if (c as u32) < 0x80 {
        1
    } else if (c as u32) < 0x800 {
        2
    } else if (c as u32) < 0x10000 {
        3
    } else {
        4
    }
}

/// The byte offset, in the UTF-8 encoding of `s`, of the character at `i`.
pub open spec fn byte_offset(s: Seq<char>, i: int) -> int
    decreases i,
{
    if i <= 0 {
        0
    } else {
        byte_offset(s, i - 1) + utf8_width(s[i - 1])
    }
}

/// The first character index, at or after `i`, whose byte offset is `b`.
pub open spec fn char_index_from(s: Seq<char>, b: int, i: int) -> Option<int>
    decreases s.len() + 1 - i,
{
    if i < 0 || i > s.len() || byte_offset(s, i) > b {
        None
    } else if byte_offset(s, i) == b {
        Some(i)
    } else {
        char_index_from(s, b, i + 1)
    }
}

/// The character index at byte offset `b`, if `b` is a character boundary
/// of `s` (its end included).
pub open spec fn char_index(s: Seq<char>, b: int) -> Option<int> {
    char_index_from(s, b, 0)
}

/// The characters that the byte range `start..end` covers, as character
/// indices, when both ends are character boundaries in order; else none.
pub open spec fn selection(s: Seq<char>, start: int, end: int) -> Option<(int, int)> {
    match (char_index(s, start), char_index(s, end)) {
        (Some(i), Some(j)) => if i <= j { Some((i, j)) } else { None },
        _ => None,
    }
}

pub proof fn lemma_char_index_from_bounds(s: Seq<char>, b: int, i: int)
    requires
        0 <= i,
    ensures
        char_index_from(s, b, i) matches Some(k) ==> i <= k <= s.len(),
    decreases s.len() + 1 - i,
{
    if 0 <= i <= s.len() && byte_offset(s, i) < b {
        lemma_char_index_from_bounds(s, b, i + 1);
    }
}

fn width_of(c: char) -> (w: u64)
    ensures
        w == utf8_width(c),
{
    let u = c as u32;
    if u < 0x80 {
        1
    } else if u < 0x800 {
        2
    } else if u < 0x10000 {
        3
    } else {
        4
    }
}

/// The character index at byte offset `b` of `s`.
pub fn char_index_exec(s: &Vec<char>, b: u32) -> (r: Option<usize>)
    ensures
        r matches Some(i) ==> char_index(s@, b as int) == Some(i as int),
        r is None ==> char_index(s@, b as int) is None,
{
    let n = s.len();
    let mut i: usize = 0;
    let mut off: u64 = 0;
    loop
        invariant
            n == s@.len(),
            i <= n,
            off == byte_offset(s@, i as int),
            off <= b,
            char_index(s@, b as int) == char_index_from(s@, b as int, i as int),
        decreases n - i,
    {
        if off == b as u64 {
            return Some(i);
        }
        if i == n {
            proof {
                assert(char_index_from(s@, b as int, n + 1) is None);
            }
            return None;
        }
        off = off + width_of(s[i]);
        i += 1;
        if off > b as u64 {
            return None;
        }
    }
}

/// The selection's character indices in `s`.
pub fn selection_exec(s: &Vec<char>, start: u32, end: u32) -> (r: Option<(usize, usize)>)
    ensures
        r matches Some((i, j)) ==> selection(s@, start as int, end as int) == Some((i as int, j as int))
            && i <= j <= s@.len(),
        r is None ==> selection(s@, start as int, end as int) is None,
{
    proof {
        lemma_char_index_from_bounds(s@, end as int, 0);
    }
    match (char_index_exec(s, start), char_index_exec(s, end)) {
        (Some(i), Some(j)) => if i <= j { Some((i, j)) } else { None },
        _ => None,
    }
}

/// The UTF-8 encoding of a concatenation is the concatenation of the
/// encodings.
pub proof fn lemma_encode_concat(a: Seq<char>, b: Seq<char>)
    ensures
        encode_utf8(a + b) == encode_utf8(a) + encode_utf8(b),
    decreases a.len(),
{
    if a.len() == 0 {
        assert(a + b =~= b);
        assert(encode_utf8(a) =~= Seq::<u8>::empty());
        assert(encode_utf8(a) + encode_utf8(b) =~= encode_utf8(b));
    } else {
        lemma_encode_concat(a.drop_first(), b);
        assert((a + b).drop_first() =~= a.drop_first() + b);
        assert((a + b)[0] == a[0]);
        assert(encode_utf8(a + b) =~= encode_scalar(a[0] as u32) + encode_utf8(a.drop_first() + b));
    }
}

/// A character's width is the length of its UTF-8 encoding.
pub proof fn law_width_is_encoding_length(c: char)
    ensures
        utf8_width(c) == encode_scalar(c as u32).len(),
        utf8_width(c) == encode_utf8(seq![c]).len(),
{
    char_is_scalar(c);
    let e = encode_utf8(seq![c]);
    assert(seq![c].drop_first() =~= Seq::<char>::empty());
    assert(e =~= encode_scalar(c as u32) + encode_utf8(Seq::<char>::empty()));
    assert(encode_utf8(Seq::<char>::empty()) =~= Seq::<u8>::empty());
}

/// The byte offset of the character at `i` is the length of the UTF-8
/// encoding of the characters before it.
pub proof fn law_byte_offset_is_encoded_prefix(s: Seq<char>, i: int)
    requires
        0 <= i <= s.len(),
    ensures
        byte_offset(s, i) == encode_utf8(s.take(i)).len(),
    decreases i,
{
    if i == 0 {
        assert(s.take(0) =~= Seq::<char>::empty());
    } else {
        law_byte_offset_is_encoded_prefix(s, i - 1);
        assert(s.take(i) =~= s.take(i - 1) + seq![s[i - 1]]);
        lemma_encode_concat(s.take(i - 1), seq![s[i - 1]]);
        law_width_is_encoding_length(s[i - 1]);
    }
}

proof fn lemma_char_index_from_offset(s: Seq<char>, b: int, i: int)
    requires
        0 <= i,
    ensures
        char_index_from(s, b, i) matches Some(k) ==> i <= k <= s.len() && byte_offset(s, k) == b,
    decreases s.len() + 1 - i,
{
    if 0 <= i <= s.len() && byte_offset(s, i) < b {
        lemma_char_index_from_offset(s, b, i + 1);
    }
}

/// A selection covers exactly the bytes `start..end` of the source: the
/// characters before it encode to `start` bytes, those up to its end to
/// `end` bytes, and the selected characters encode to the source's bytes
/// `start..end`.
pub proof fn law_selection_is_byte_range(s: Seq<char>, start: int, end: int)
    ensures
        selection(s, start, end) matches Some((i, j)) ==> {
            &&& 0 <= i <= j <= s.len()
            &&& encode_utf8(s.take(i)).len() == start
            &&& encode_utf8(s.take(j)).len() == end
            &&& encode_utf8(s.subrange(i, j)) == encode_utf8(s).subrange(start, end)
        },
{
    lemma_char_index_from_offset(s, start, 0);
    lemma_char_index_from_offset(s, end, 0);
    if let Some((i, j)) = selection(s, start, end) {
        law_byte_offset_is_encoded_prefix(s, i);
        law_byte_offset_is_encoded_prefix(s, j);
        let pre = s.take(i);
        let mid = s.subrange(i, j);
        let post = s.subrange(j, s.len() as int);
        assert(s.take(j) =~= pre + mid);
        assert(s =~= pre + mid + post);
        lemma_encode_concat(pre, mid);
        lemma_encode_concat(pre + mid, post);
        assert(encode_utf8(s).subrange(start, end) =~= encode_utf8(mid));
    }
}

/// Conversely, byte offsets that fall on character boundaries in order
/// always make a selection.
pub proof fn law_boundaries_make_a_selection(s: Seq<char>, i: int, j: int)
    requires
        0 <= i <= j <= s.len(),
    ensures
        selection(s, encode_utf8(s.take(i)).len() as int, encode_utf8(s.take(j)).len() as int)
            == Some((i, j)),
{
    law_byte_offset_is_encoded_prefix(s, i);
    law_byte_offset_is_encoded_prefix(s, j);
    lemma_char_index_is(s, i);
    lemma_char_index_is(s, j);
}

proof fn lemma_offsets_increase(s: Seq<char>, a: int, b: int)
    requires
        0 <= a < b <= s.len(),
    ensures
        byte_offset(s, a) < byte_offset(s, b),
    decreases b - a,
{
    if a + 1 < b {
        lemma_offsets_increase(s, a, b - 1);
    }
}

proof fn lemma_char_index_is(s: Seq<char>, k: int)
    requires
        0 <= k <= s.len(),
    ensures
        char_index(s, byte_offset(s, k)) == Some(k),
{
    let b = byte_offset(s, k);
    assert forall|m: int| 0 <= m <= k implies char_index_from(s, b, m) == Some(k) by {
        lemma_from_reaches(s, b, k, m);
    }
}

proof fn lemma_from_reaches(s: Seq<char>, b: int, k: int, m: int)
    requires
        0 <= m <= k <= s.len(),
        b == byte_offset(s, k),
    ensures
        char_index_from(s, b, m) == Some(k),
    decreases k - m,
{
    if m < k {
        lemma_offsets_increase(s, m, k);
        lemma_from_reaches(s, b, k, m + 1);
    }
}

} // verus!

//! Text helpers: lowercase hex, prefixes and trimming.
use vstd::prelude::*;

verus! {

/// The lowercase hex digit for a nibble.
pub open spec fn hex_digit(n: int) -> char {
    seq!['0', '1', '2', '3', '4', '5', '6', '7', '8', '9', 'a', 'b', 'c', 'd', 'e', 'f'][n]
}

/// Lowercase hex text of a byte string, two digits per byte, high nibble first.
pub open spec fn hex_text(b: Seq<u8>) -> Seq<char>
    decreases b.len(),
{
    if b.len() == 0 {
        Seq::empty()
    } else {
        seq![hex_digit(b[0] as int / 16), hex_digit(b[0] as int % 16)] + hex_text(b.drop_first())
    }
}

/// A character of lowercase hex text.
pub open spec fn is_lower_hex_char(c: char) -> bool {
    ('0' <= c && c <= '9') || ('a' <= c && c <= 'f')
}

pub proof fn lemma_hex_text_shape(b: Seq<u8>)
    ensures
        hex_text(b).len() == 2 * b.len(),
        forall|i: int| 0 <= i < hex_text(b).len() ==> is_lower_hex_char(#[trigger] hex_text(b)[i]),
    decreases b.len(),
{
    if b.len() > 0 {
        lemma_hex_text_shape(b.drop_first());
        let head = seq![hex_digit(b[0] as int / 16), hex_digit(b[0] as int % 16)];
        assert(is_lower_hex_char(head[0]));
        assert(is_lower_hex_char(head[1]));
        assert forall|i: int| 0 <= i < hex_text(b).len() implies is_lower_hex_char(
            #[trigger] hex_text(b)[i],
        ) by {
            if i >= 2 {
                assert(hex_text(b)[i] == hex_text(b.drop_first())[i - 2]);
            }
        }
    }
}

/// The value of a lowercase hex digit.
pub open spec fn hex_value(c: char) -> int {
    if '0' <= c && c <= '9' {
        c as int - '0' as int
    } else {
        c as int - 'a' as int + 10
    }
}

proof fn lemma_hex_digit_value(n: int)
    requires
        0 <= n < 16,
    ensures
        hex_value(hex_digit(n)) == n,
{
    let digits = seq!['0', '1', '2', '3', '4', '5', '6', '7', '8', '9', 'a', 'b', 'c', 'd', 'e', 'f'];
    assert(hex_digit(n) == digits[n]);
}

/// Different byte strings have different hex text.
pub proof fn lemma_hex_text_injective(a: Seq<u8>, b: Seq<u8>)
    ensures
        hex_text(a) == hex_text(b) ==> a == b,
    decreases a.len(),
{
    lemma_hex_text_shape(a);
    lemma_hex_text_shape(b);
    if hex_text(a) == hex_text(b) {
        if a.len() == 0 {
            assert(a =~= b);
        } else {
            let t = hex_text(a);
            lemma_hex_digit_value(a[0] as int / 16);
            lemma_hex_digit_value(a[0] as int % 16);
            lemma_hex_digit_value(b[0] as int / 16);
            lemma_hex_digit_value(b[0] as int % 16);
            assert(t[0] == hex_digit(a[0] as int / 16) && t[0] == hex_digit(b[0] as int / 16));
            assert(t[1] == hex_digit(a[0] as int % 16) && t[1] == hex_digit(b[0] as int % 16));
            assert(a[0] == b[0]);
            assert(hex_text(a.drop_first()) =~= t.subrange(2, t.len() as int));
            assert(hex_text(b.drop_first()) =~= t.subrange(2, t.len() as int));
            lemma_hex_text_injective(a.drop_first(), b.drop_first());
            assert(a =~= seq![a[0]] + a.drop_first());
            assert(b =~= seq![b[0]] + b.drop_first());
        }
    }
}

/// `hex::encode`: lowercase hex of the bytes.
#[verifier::external_body]
pub(crate) fn hex_encode(data: &[u8]) -> (r: String)
    ensures
        r@ == hex_text(data@),
{
    hex::encode(data)
}

/// The text of an optional string slice.
pub open spec fn opt_text(o: Option<&str>) -> Option<Seq<char>> {
    match o {
        Some(s) => Some(s@),
        None => None,
    }
}

/// `s` begins with `p`.
pub open spec fn has_prefix(s: Seq<char>, p: Seq<char>) -> bool {
    p.len() <= s.len() && s.subrange(0, p.len() as int) == p
}

pub fn starts_with(s: &str, p: &str) -> (r: bool)
    ensures
        r == has_prefix(s@, p@),
{
    let n = s.unicode_len();
    let m = p.unicode_len();
    if m > n {
        return false;
    }
    let mut i: usize = 0;
    while i < m
        invariant
            n == s@.len(),
            m == p@.len(),
            m <= n,
            i <= m,
            forall|j: int| 0 <= j < i ==> s@[j] == p@[j],
        decreases m - i,
    {
        if s.get_char(i) != p.get_char(i) {
            assert(s@.subrange(0, m as int)[i as int] != p@[i as int]);
            return false;
        }
        i = i + 1;
    }
    assert(s@.subrange(0, m as int) =~= p@);
    true
}

/// `str::strip_prefix`: the rest of `s` after `p`, when `s` begins with `p`.
pub fn strip_prefix(s: &str, p: &str) -> (r: Option<String>)
    ensures
        match r {
            Some(rest) => has_prefix(s@, p@) && rest@ == s@.subrange(p@.len() as int, s@.len() as int),
            None => !has_prefix(s@, p@),
        },
{
    if starts_with(s, p) {
        let n = s.unicode_len();
        let m = p.unicode_len();
        Some(s.substring_char(m, n).to_string())
    } else {
        None
    }
}

/// `s` with every trailing `c` removed.
pub open spec fn trim_end_char(s: Seq<char>, c: char) -> Seq<char>
    decreases s.len(),
{
    if s.len() > 0 && s.last() == c {
        trim_end_char(s.drop_last(), c)
    } else {
        s
    }
}

/// `str::trim_end_matches` with a single character.
pub fn trim_end_matches(s: &str, c: char) -> (r: String)
    ensures
        r@ == trim_end_char(s@, c),
{
    let mut k = s.unicode_len();
    assert(s@.subrange(0, k as int) =~= s@);
    while k > 0 && s.get_char(k - 1) == c
        invariant
            k <= s@.len(),
            trim_end_char(s@.subrange(0, k as int), c) == trim_end_char(s@, c),
        decreases k,
    {
        assert(s@.subrange(0, k as int).drop_last() =~= s@.subrange(0, k - 1));
        k = k - 1;
    }
    s.substring_char(0, k).to_string()
}

/// Character-wise equality of two strings.
pub fn str_eq(a: &str, b: &str) -> (r: bool)
    ensures
        r == (a@ == b@),
{
    let n = a.unicode_len();
    if n != b.unicode_len() {
        return false;
    }
    let mut i: usize = 0;
    while i < n
        invariant
            n == a@.len(),
            n == b@.len(),
            i <= n,
            forall|j: int| 0 <= j < i ==> a@[j] == b@[j],
        decreases n - i,
    {
        if a.get_char(i) != b.get_char(i) {
            return false;
        }
        i = i + 1;
    }
    assert(a@ =~= b@);
    true
}

} // verus!

//! Character-level string helpers: decimal rendering, UTF-8 widths and
//! truncation that never splits a character.
use vstd::prelude::*;
use vstd::utf8::{encode_scalar, encode_utf8};

verus! {

/// Number of bytes that UTF-8 takes for `s`.
pub open spec fn byte_len(s: Seq<char>) -> nat {
    encode_utf8(s).len()
}

/// Number of bytes that UTF-8 takes for `c`.
pub open spec fn char_bytes(c: char) -> nat {
    encode_scalar(c as u32).len()
}

pub open spec fn digit_char(d: nat) -> char {
    if d == 0 { '0' } else if d == 1 { '1' } else if d == 2 { '2' } else if d == 3 { '3' }
    else if d == 4 { '4' } else if d == 5 { '5' } else if d == 6 { '6' } else if d == 7 { '7' }
    else if d == 8 { '8' } else { '9' }
}

fn digit(d: usize) -> (c: char)
    requires
        d < 10,
    ensures
        c == digit_char(d as nat),
{
    if d == 0 { '0' } else if d == 1 { '1' } else if d == 2 { '2' } else if d == 3 { '3' }
    else if d == 4 { '4' } else if d == 5 { '5' } else if d == 6 { '6' } else if d == 7 { '7' }
    else if d == 8 { '8' } else { '9' }
}

/// Decimal digits of `n`, most significant first.
pub open spec fn dec_chars(n: nat) -> Seq<char>
    decreases n,
{
    if n < 10 {
        seq![digit_char(n)]
    } else {
        dec_chars(n / 10).push(digit_char(n % 10))
    }
}

pub proof fn lemma_encode_push(a: Seq<char>, c: char)
    ensures
        encode_utf8(a.push(c)) == encode_utf8(a) + encode_scalar(c as u32),
    decreases a.len(),
{
    if a.len() == 0 {
        assert(a.push(c).drop_first() =~= Seq::<char>::empty());
        assert(encode_utf8(Seq::<char>::empty()) =~= Seq::<u8>::empty());
        assert(encode_utf8(a) =~= Seq::<u8>::empty());
        assert(encode_utf8(a.push(c)) =~= encode_scalar(c as u32) + Seq::<u8>::empty());
        assert(encode_scalar(c as u32) + Seq::<u8>::empty() =~= encode_scalar(c as u32));
    } else {
        assert(a.push(c).drop_first() =~= a.drop_first().push(c));
        lemma_encode_push(a.drop_first(), c);
        assert(encode_utf8(a.push(c)) =~= encode_utf8(a) + encode_scalar(c as u32));
    }
}

pub proof fn lemma_char_bytes_range(c: char)
    ensures
        1 <= char_bytes(c) <= 4,
{
}

/// UTF-8 never takes fewer bytes than there are characters.
pub proof fn lemma_chars_le_bytes(s: Seq<char>)
    ensures
        s.len() <= byte_len(s),
    decreases s.len(),
{
    if s.len() > 0 {
        lemma_chars_le_bytes(s.drop_first());
    }
}

/// The byte length of a prefix grows by one character's width per step.
pub proof fn lemma_prefix_bytes(s: Seq<char>, k: int)
    requires
        0 <= k < s.len(),
    ensures
        byte_len(s.take(k + 1)) == byte_len(s.take(k)) + char_bytes(s[k]),
{
    assert(s.take(k + 1) =~= s.take(k).push(s[k]));
    lemma_encode_push(s.take(k), s[k]);
}

/// Relies on String::push: appends one character.
#[verifier::external_body]
pub(crate) fn push_char(s: &mut String, c: char)
    ensures
        final(s)@ == old(s)@.push(c),
{
    s.push(c)
}

/// UTF-8 width of one character.
pub fn char_width(c: char) -> (r: usize)
    ensures
        r as nat == char_bytes(c),
        1 <= r <= 4,
{
    let v = c as u32;
    if v <= 0x7f {
        1
    } else if v <= 0x7ff {
        2
    } else if v <= 0xffff {
        3
    } else {
        4
    }
}

/// The characters of `s`, in order.
pub fn chars_of(s: &str) -> (r: Vec<char>)
    ensures
        r@ == s@,
{
    let mut out: Vec<char> = Vec::new();
    for c in it: s.chars()
        invariant
            out@ == it.history(),
    {
        out.push(c);
    }
    proof {
        broadcast use vstd::string::axiom_spec_iter;
    }
    out
}

/// Appends every character of `v` to `s`.
pub fn push_chars(s: &mut String, v: &[char])
    ensures
        final(s)@ == old(s)@ + v@,
{
    let ghost start = s@;
    let mut i: usize = 0;
    while i < v.len()
        invariant
            i <= v@.len(),
            s@ == start + v@.take(i as int),
        decreases v@.len() - i,
    {
        push_char(s, v[i]);
        assert(v@.take(i + 1) =~= v@.take(i as int).push(v@[i as int]));
        i = i + 1;
    }
    assert(v@.take(i as int) =~= v@);
}

/// Appends the decimal digits of `n` to `s`.
pub fn push_decimal(s: &mut String, n: usize)
    ensures
        final(s)@ == old(s)@ + dec_chars(n as nat),
    decreases n,
{
    if n >= 10 {
        push_decimal(s, n / 10);
    }
    push_char(s, digit(n % 10));
    assert(s@ =~= old(s)@ + dec_chars(n as nat));
}

/// The decimal rendering of `n`.
pub fn decimal(n: usize) -> (r: String)
    ensures
        r@ == dec_chars(n as nat),
{
    let mut s = String::new();
    push_decimal(&mut s, n);
    assert(s@ =~= dec_chars(n as nat));
    s
}

/// `p` is the longest prefix of `s` whose UTF-8 encoding fits in `max` bytes.
pub open spec fn is_fitting_prefix(p: Seq<char>, s: Seq<char>, max: nat) -> bool {
    &&& p.len() <= s.len()
    &&& p == s.take(p.len() as int)
    &&& byte_len(p) <= max
    &&& p.len() < s.len() ==> byte_len(s.take(p.len() + 1 as int)) > max
}

/// Marker appended to a line that was cut short.
pub open spec fn ellipsis() -> Seq<char> {
    seq!['…', '…']
}

/// What a preview line becomes when it is limited to `max` bytes: unchanged
/// when it fits, else its longest fitting prefix followed by the marker.
pub open spec fn is_truncated_line(r: Seq<char>, s: Seq<char>, max: nat) -> bool {
    if byte_len(s) <= max {
        r == s
    } else {
        exists|p: Seq<char>| #[trigger] is_fitting_prefix(p, s, max) && r == p + ellipsis()
    }
}

/// Number of leading characters of `cs` that fit in `max` bytes of UTF-8.
pub(crate) fn fitting_count(cs: &Vec<char>, max: usize) -> (k: usize)
    ensures
        k <= cs@.len(),
        is_fitting_prefix(cs@.take(k as int), cs@, max as nat),
{
    let mut used: usize = 0;
    let mut i: usize = 0;
    proof {
        assert(cs@.take(0) =~= Seq::<char>::empty());
        assert(encode_utf8(Seq::<char>::empty()) =~= Seq::<u8>::empty());
    }
    while i < cs.len()
        invariant
            i <= cs@.len(),
            used as nat == byte_len(cs@.take(i as int)),
            used <= max,
        decreases cs@.len() - i,
    {
        let w = char_width(cs[i]);
        proof {
            lemma_prefix_bytes(cs@, i as int);
        }
        if w > max - used {
            return i;
        }
        used = used + w;
        i = i + 1;
    }
    assert(cs@.take(i as int) =~= cs@);
    i
}

/// The longest prefix of `s` that fits in `max` bytes of UTF-8.
pub fn fitting_prefix(s: &str, max: usize) -> (r: String)
    ensures
        is_fitting_prefix(r@, s@, max as nat),
{
    let cs = chars_of(s);
    let k = fitting_count(&cs, max);
    let mut r = String::new();
    push_chars(&mut r, vstd::slice::slice_subrange(cs.as_slice(), 0, k));
    assert(r@ =~= s@.take(k as int));
    r
}

/// Limits a preview line to `max` bytes, marking a cut with an ellipsis.
pub fn truncate_line(s: &str, max: usize) -> (r: String)
    ensures
        is_truncated_line(r@, s@, max as nat),
{
    let cs = chars_of(s);
    let k = fitting_count(&cs, max);
    if k == cs.len() {
        assert(cs@.take(k as int) =~= s@);
        let r = s.to_owned();
        r
    } else {
        let mut r = String::new();
        push_chars(&mut r, vstd::slice::slice_subrange(cs.as_slice(), 0, k));
        let ghost p = r@;
        assert(p =~= s@.take(k as int));
        assert(is_fitting_prefix(p, s@, max as nat));
        proof {
            lemma_prefix_monotone(s@, k as int + 1, s@.len() as int);
            assert(s@.take(s@.len() as int) =~= s@);
        }
        push_char(&mut r, '…');
        push_char(&mut r, '…');
        assert(r@ =~= p + ellipsis());
        r
    }
}

/// Longer prefixes take at least as many bytes.
pub proof fn lemma_prefix_monotone(s: Seq<char>, i: int, j: int)
    requires
        0 <= i <= j <= s.len(),
    ensures
        byte_len(s.take(i)) <= byte_len(s.take(j)),
    decreases j - i,
{
    if i < j {
        lemma_prefix_monotone(s, i, j - 1);
        lemma_prefix_bytes(s, j - 1);
    }
}

/// The first `n` characters of `s` (all of them when it is shorter).
pub fn take_chars(s: &str, n: usize) -> (r: String)
    ensures
        r@ == s@.take(if n < s@.len() { n as int } else { s@.len() as int }),
{
    let cs = chars_of(s);
    let k: usize = if n < cs.len() { n } else { cs.len() };
    let mut r = String::new();
    push_chars(&mut r, vstd::slice::slice_subrange(cs.as_slice(), 0, k));
    assert(r@ =~= s@.take(k as int));
    r
}

/// Whether two texts hold the same characters.
pub fn text_eq(a: &str, b: &str) -> (r: bool)
    ensures
        r == (a@ == b@),
{
    let x = chars_of(a);
    let y = chars_of(b);
    if x.len() != y.len() {
        return false;
    }
    let mut i: usize = 0;
    while i < x.len()
        invariant
            x@ == a@,
            y@ == b@,
            x@.len() == y@.len(),
            i <= x@.len(),
            forall|j: int| 0 <= j < i ==> x@[j] == y@[j],
        decreases x@.len() - i,
    {
        if x[i] != y[i] {
            return false;
        }
        i = i + 1;
    }
    assert(x@ =~= y@);
    true
}

/// Whether `s` begins with the character `c`.
pub fn starts_with_char(s: &str, c: char) -> (r: bool)
    ensures
        r == (s@.len() > 0 && s@[0] == c),
{
    let cs = chars_of(s);
    cs.len() > 0 && cs[0] == c
}

/// `pat` occurs in `s` at `i`.
pub open spec fn occurs_at(s: Seq<char>, pat: Seq<char>, i: int) -> bool {
    0 <= i && i + pat.len() <= s.len() && s.subrange(i, i + pat.len()) == pat
}

/// The first index at or after `i` at which `pat` occurs in `s`.
pub open spec fn first_occurrence(s: Seq<char>, pat: Seq<char>, i: int) -> Option<int>
    decreases s.len() + 1 - i,
{
    if i < 0 || i + pat.len() > s.len() {
        None
    } else if occurs_at(s, pat, i) {
        Some(i)
    } else {
        first_occurrence(s, pat, i + 1)
    }
}

/// `s` with its first occurrence of `pat` replaced by `to`.
pub open spec fn replace_first(s: Seq<char>, pat: Seq<char>, to: Seq<char>) -> Seq<char> {
    match first_occurrence(s, pat, 0) {
        Some(i) => s.take(i) + to + s.skip(i + pat.len()),
        None => s,
    }
}

fn occurs_here(s: &Vec<char>, pat: &Vec<char>, i: usize) -> (r: bool)
    ensures
        r == occurs_at(s@, pat@, i as int),
{
    let n = s.len();
    if i > n || n - i < pat.len() {
        return false;
    }
    let mut k: usize = 0;
    while k < pat.len()
        invariant
            i + pat@.len() <= s@.len(),
            s@.len() == n,
            k <= pat@.len(),
            forall|j: int| 0 <= j < k ==> s@[i + j] == pat@[j],
        decreases pat@.len() - k,
    {
        if s[i + k] != pat[k] {
            assert(s@.subrange(i as int, i + pat@.len())[k as int] != pat@[k as int]);
            return false;
        }
        k = k + 1;
    }
    assert(s@.subrange(i as int, i + pat@.len()) =~= pat@);
    true
}

/// `s` with its first occurrence of `pat` replaced by `to`.
pub fn replace_first_occurrence(s: &str, pat: &str, to: &str) -> (r: String)
    ensures
        r@ == replace_first(s@, pat@, to@),
{
    let cs = chars_of(s);
    let ps = chars_of(pat);
    let ts = chars_of(to);
    let mut i: usize = 0;
    while i <= cs.len() && cs.len() - i >= ps.len()
        invariant
            cs@ == s@,
            ps@ == pat@,
            ts@ == to@,
            first_occurrence(s@, pat@, 0) == first_occurrence(s@, pat@, i as int),
        decreases cs@.len() + 1 - i,
    {
        if occurs_here(&cs, &ps, i) {
            assert(first_occurrence(s@, pat@, i as int) == Some(i as int));
            let mut r = String::new();
            push_chars(&mut r, vstd::slice::slice_subrange(cs.as_slice(), 0, i));
            push_chars(&mut r, ts.as_slice());
            push_chars(&mut r, vstd::slice::slice_subrange(cs.as_slice(), i + ps.len(), cs.len()));
            assert(r@ =~= replace_first(s@, pat@, to@));
            return r;
        }
        if ps.len() == 0 {
            assert(cs@.subrange(i as int, i as int) =~= ps@);
        }
        i = i + 1;
    }
    s.to_owned()
}

} // verus!

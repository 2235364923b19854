//! Small text conversions: UTF-16 decoding, numbers as digits, comparison.
use vstd::prelude::*;

verus! {

/// The UTF-16 code units of one character.
pub open spec fn char_utf16(c: char) -> Seq<u16> {
    let v = c as u32;
    if v < 0x10000 {
        seq![v as u16]
    } else {
        let w = (v - 0x10000) as u32;
        seq![(0xD800 + (w >> 10u32)) as u16, (0xDC00 + (w & 0x3FF)) as u16]
    }
}

/// The UTF-16 encoding of a character sequence.
pub open spec fn utf16_of(cs: Seq<char>) -> Seq<u16>
    decreases cs.len(),
{
    if cs.len() == 0 {
        Seq::empty()
    } else {
        utf16_of(cs.drop_last()) + char_utf16(cs.last())
    }
}

/// Relies on `String::from_utf16`: the text whose UTF-16 encoding is
/// `units`, and an error when there is none (an unpaired surrogate).
#[verifier::external_body]
fn string_from_utf16(units: &[u16]) -> (r: Option<String>)
    ensures
        r matches Some(s) ==> utf16_of(s@) == units@,
        r is None ==> forall|cs: Seq<char>| utf16_of(cs) != units@,
{
    String::from_utf16(units).ok()
}

/// The text that `units` encode, if they are valid UTF-16.
pub fn decode_utf16(units: &[u16]) -> (r: Option<String>)
    ensures
        r matches Some(s) ==> utf16_of(s@) == units@,
        r is None ==> forall|cs: Seq<char>| utf16_of(cs) != units@,
{
    string_from_utf16(units)
}

pub open spec fn digit_char(d: nat) -> char {
    if d < 10 {
        ((d + 48) as u8) as char
    } else {
        ((d - 10 + 97) as u8) as char
    }
}

/// `n` in decimal, without leading zeros.
pub open spec fn decimal(n: nat) -> Seq<char>
    decreases n,
{
    if n < 10 {
        seq![digit_char(n)]
    } else {
        decimal(n / 10).push(digit_char(n % 10))
    }
}

/// `v` in decimal, with a minus sign when negative.
pub open spec fn signed_decimal(v: i32) -> Seq<char> {
    if v < 0 {
        seq!['-'] + decimal((-v) as nat)
    } else {
        decimal(v as nat)
    }
}

/// The 32 bits of `v` as eight lower-case hexadecimal digits.
pub open spec fn hex8(v: u32) -> Seq<char> {
    Seq::new(8, |i: int| digit_char(((v >> ((28 - 4 * i) as u32)) & 0xf) as nat))
}

fn digit(d: u32) -> (r: char)
    requires
        d < 16,
    ensures
        r == digit_char(d as nat),
{
    if d < 10 {
        ((d + 48) as u8) as char
    } else {
        ((d - 10 + 97) as u8) as char
    }
}

/// `n` in decimal.
pub fn decimal_string(n: u64) -> (r: String)
    ensures
        r@ == decimal(n as nat),
{
    let mut digits: Vec<char> = Vec::new();
    let mut rest = n;
    while rest >= 10
        invariant
            decimal(n as nat) == decimal(rest as nat) + digits@.reverse(),
        decreases rest,
    {
        let ghost before = digits@;
        digits.push(digit((rest % 10) as u32));
        proof {
            assert(digits@.reverse() =~= seq![digit_char((rest % 10) as nat)] + before.reverse());
            assert(decimal(rest as nat) == decimal((rest / 10) as nat).push(
                digit_char((rest % 10) as nat),
            ));
            assert(decimal(rest as nat) + before.reverse() =~= decimal((rest / 10) as nat)
                + digits@.reverse());
        }
        rest = rest / 10;
    }
    digits.push(digit(rest as u32));
    let mut r = String::new();
    let mut i: usize = digits.len();
    while i > 0
        invariant
            i <= digits@.len(),
            digits@.len() > 0,
            r@ =~= digits@.reverse().take((digits@.len() - i) as int),
            decimal(n as nat) == digits@.reverse(),
        decreases i,
    {
        i = i - 1;
        push_char(&mut r, digits[i]);
    }
    r
}

/// Relies on `String::push`: appends one character.
#[verifier::external_body]
fn push_char(s: &mut String, c: char)
    ensures
        final(s)@ == old(s)@.push(c),
{
    s.push(c)
}

/// `v` in decimal, with a minus sign when negative.
pub fn signed_decimal_string(v: i32) -> (r: String)
    ensures
        r@ == signed_decimal(v),
{
    if v < 0 {
        let magnitude: u32 = if v == i32::MIN {
            0x8000_0000u32
        } else {
            (-v) as u32
        };
        let digits = decimal_string(magnitude as u64);
        let mut r = String::from_str("-");
        r.append(digits.as_str());
        proof {
            reveal_strlit("-");
        }
        r
    } else {
        decimal_string(v as u64)
    }
}

/// The 32 bits of `v` as eight lower-case hexadecimal digits.
pub fn hex8_string(v: u32) -> (r: String)
    ensures
        r@ == hex8(v),
{
    let mut r = String::new();
    let mut i: u32 = 0;
    while i < 8
        invariant
            i <= 8,
            r@ =~= hex8(v).take(i as int),
        decreases 8 - i,
    {
        let shift: u32 = 28 - 4 * i;
        assert(((v >> shift) & 0xf) < 16) by (bit_vector);
        push_char(&mut r, digit((v >> shift) & 0xf));
        i = i + 1;
    }
    r
}

/// Whether `a` and `b` hold the same characters.
pub fn same_text(a: &str, b: &str) -> (r: bool)
    ensures
        r == (a@ == b@),
{
    let n = a.unicode_len();
    if n != b.unicode_len() {
        return false;
    }
    let mut i: usize = 0;
    while i < n
        invariant
            n == a@.len(),
            n == b@.len(),
            i <= n,
            forall|k: int| 0 <= k < i ==> a@[k] == b@[k],
        decreases n - i,
    {
        if a.get_char(i) != b.get_char(i) {
            return false;
        }
        i = i + 1;
    }
    assert(a@ =~= b@);
    true
}

/// Whether `s` begins with `prefix`.
pub fn starts_with(s: &str, prefix: &str) -> (r: bool)
    ensures
        r == (prefix@.len() <= s@.len() && s@.take(prefix@.len() as int) == prefix@),
{
    let n = prefix.unicode_len();
    if n > s.unicode_len() {
        return false;
    }
    let mut i: usize = 0;
    while i < n
        invariant
            n == prefix@.len(),
            n <= s@.len(),
            i <= n,
            forall|k: int| 0 <= k < i ==> s@[k] == prefix@[k],
        decreases n - i,
    {
        if s.get_char(i) != prefix.get_char(i) {
            assert(s@.take(n as int)[i as int] != prefix@[i as int]);
            return false;
        }
        i = i + 1;
    }
    assert(s@.take(n as int) =~= prefix@);
    true
}

/// Whether `needle` occurs somewhere in `s`.
pub fn contains(s: &str, needle: &str) -> (r: bool)
    ensures
        r == exists|k: int|
            0 <= k && k + needle@.len() <= s@.len() && #[trigger] s@.subrange(k, k + needle@.len())
                == needle@,
{
    let n = s.unicode_len();
    let m = needle.unicode_len();
    if m > n {
        return false;
    }
    let mut k: usize = 0;
    while k < n - m
        invariant
            n == s@.len(),
            m == needle@.len(),
            m <= n,
            k <= n - m,
            forall|j: int|
                0 <= j < k ==> #[trigger] s@.subrange(j, j + needle@.len()) != needle@,
        decreases n - m - k,
    {
        let part = s.substring_char(k, k + m);
        if same_text(part, needle) {
            return true;
        }
        k = k + 1;
    }
    let last = s.substring_char(k, k + m);
    if same_text(last, needle) {
        return true;
    }
    assert forall|j: int|
        0 <= j && j + needle@.len() <= s@.len() implies #[trigger] s@.subrange(
        j,
        j + needle@.len(),
    ) != needle@ by {
        if j < k {
        } else {
            assert(j == k);
        }
    }
    false
}

pub open spec fn is_low_surrogate(u: u16) -> bool {
    0xDC00 <= u && u <= 0xDFFF
}

proof fn lemma_char_utf16_shape(c: char)
    ensures
        (c as u32) < 0x10000 ==> char_utf16(c).len() == 1 && !is_low_surrogate(char_utf16(c)[0])
            && char_utf16(c)[0] == c as u32,
        (c as u32) >= 0x10000 ==> char_utf16(c).len() == 2 && is_low_surrogate(char_utf16(c)[1]),
{
    let v = c as u32;
    if v >= 0x10000 {
        let w = (v - 0x10000) as u32;
        assert(w <= 0xFFFFF);
        assert((w & 0x3FF) <= 0x3FF) by (bit_vector);
        assert(w <= 0xFFFFF ==> (w >> 10u32) <= 0x3FF) by (bit_vector);
    }
}

proof fn lemma_char_utf16_injective(a: char, b: char)
    requires
        char_utf16(a) == char_utf16(b),
    ensures
        a == b,
{
    lemma_char_utf16_shape(a);
    lemma_char_utf16_shape(b);
    let va = a as u32;
    let vb = b as u32;
    if va >= 0x10000 && vb >= 0x10000 {
        let wa = (va - 0x10000) as u32;
        let wb = (vb - 0x10000) as u32;
        assert(wa <= 0xFFFFF && wb <= 0xFFFFF);
        assert(char_utf16(a)[0] == char_utf16(b)[0] && char_utf16(a)[1] == char_utf16(b)[1]);
        assert((wa >> 10u32) <= 0x3FF && (wb >> 10u32) <= 0x3FF) by (bit_vector)
            requires
                wa <= 0xFFFFF && wb <= 0xFFFFF,
        ;
        assert((wa & 0x3FF) <= 0x3FF && (wb & 0x3FF) <= 0x3FF) by (bit_vector);
        assert(wa >> 10u32 == wb >> 10u32);
        assert(wa & 0x3FF == wb & 0x3FF);
        assert(wa == wb) by (bit_vector)
            requires
                wa >> 10u32 == wb >> 10u32,
                wa & 0x3FF == wb & 0x3FF,
        ;
    }
}

proof fn lemma_utf16_len(cs: Seq<char>)
    ensures
        utf16_of(cs).len() >= cs.len(),
    decreases cs.len(),
{
    if cs.len() > 0 {
        lemma_utf16_len(cs.drop_last());
        lemma_char_utf16_shape(cs.last());
    }
}

/// Different texts have different UTF-16 encodings.
pub proof fn lemma_utf16_injective(a: Seq<char>, b: Seq<char>)
    requires
        utf16_of(a) == utf16_of(b),
    ensures
        a == b,
    decreases a.len(),
{
    lemma_utf16_len(a);
    lemma_utf16_len(b);
    if a.len() == 0 || b.len() == 0 {
        assert(a.len() == 0 && b.len() == 0) by {
            if a.len() > 0 {
                lemma_char_utf16_shape(a.last());
            }
            if b.len() > 0 {
                lemma_char_utf16_shape(b.last());
            }
        }
        assert(a =~= b);
    } else {
        let u = utf16_of(a);
        let x = a.last();
        let y = b.last();
        lemma_char_utf16_shape(x);
        lemma_char_utf16_shape(y);
        let cx = char_utf16(x);
        let cy = char_utf16(y);
        let pa = utf16_of(a.drop_last());
        let pb = utf16_of(b.drop_last());
        assert(u == pa + cx);
        assert(u == pb + cy);
        assert(u.last() == cx.last());
        assert(u.last() == cy.last());
        assert(cx.len() == cy.len());
        assert(cx =~= u.skip(u.len() - cx.len()));
        assert(cy =~= u.skip(u.len() - cy.len()));
        assert(pa =~= u.take(u.len() - cx.len()));
        assert(pb =~= u.take(u.len() - cy.len()));
        lemma_char_utf16_injective(x, y);
        lemma_utf16_injective(a.drop_last(), b.drop_last());
        assert(a =~= a.drop_last().push(x));
        assert(b =~= b.drop_last().push(y));
    }
}

} // verus!

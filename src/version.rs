//! Release versions, as the update check reads and compares them.
use vstd::prelude::*;

verus! {

/// `major.minor.patch`, and whether a `-suffix` marked a pre-release.
#[derive(PartialEq, Eq, Structural, Clone, Copy, Debug)]
pub struct Version {
    pub major: u32,
    pub minor: u32,
    pub patch: u32,
    pub is_prerelease: bool,
}

/// `a` orders after `b`: by major, minor and patch, and then a pre-release
/// after a release of the same numbers.
pub open spec fn version_after(a: Version, b: Version) -> bool {
    if a.major != b.major {
        a.major > b.major
    } else if a.minor != b.minor {
        a.minor > b.minor
    } else if a.patch != b.patch {
        a.patch > b.patch
    } else {
        a.is_prerelease && !b.is_prerelease
    }
}

pub open spec fn is_ascii_digit(c: char) -> bool {
    '0' <= c && c <= '9'
}

/// The value of a sequence of decimal digits.
pub open spec fn digits_value(s: Seq<char>) -> nat
    decreases s.len(),
{
    if s.len() == 0 {
        0
    } else {
        digits_value(s.drop_last()) * 10 + ((s.last() as u32) - 48) as nat
    }
}

/// The value of one or more decimal digits that fit in 32 bits.
pub open spec fn digits_text(d: Seq<char>) -> Option<u32> {
    if d.len() > 0 && (forall|i: int| 0 <= i < d.len() ==> is_ascii_digit(#[trigger] d[i]))
        && digits_value(d) <= u32::MAX {
        Some(digits_value(d) as u32)
    } else {
        None
    }
}

/// What `str::parse::<u32>` accepts: an optional `+`, then one or more
/// decimal digits whose value fits in 32 bits.
pub open spec fn u32_text(s: Seq<char>) -> Option<u32> {
    if s.len() > 0 && s[0] == '+' {
        digits_text(s.drop_first())
    } else {
        digits_text(s)
    }
}

/// The position of the first `c` in `s`.
pub open spec fn first_of(s: Seq<char>, c: char) -> Option<int>
    decreases s.len(),
{
    if s.len() == 0 {
        None
    } else if s[0] == c {
        Some(0)
    } else {
        match first_of(s.drop_first(), c) {
            Some(k) => Some(k + 1),
            None => None,
        }
    }
}

proof fn lemma_first_of(s: Seq<char>, c: char)
    ensures
        match first_of(s, c) {
            Some(k) => 0 <= k < s.len() && s[k] == c && forall|j: int| 0 <= j < k ==> s[j] != c,
            None => forall|j: int| 0 <= j < s.len() ==> s[j] != c,
        },
    decreases s.len(),
{
    if s.len() > 0 && s[0] != c {
        lemma_first_of(s.drop_first(), c);
        assert forall|j: int| 1 <= j < s.len() implies s[j] == s.drop_first()[j - 1] by {}
    }
}

/// The `M.m.p` part of a version.
pub open spec fn numbers_text(numbers: Seq<char>) -> Option<(u32, u32, u32)> {
    match first_of(numbers, '.') {
        None => None,
        Some(k1) => {
            let rest = numbers.skip(k1 + 1);
            match first_of(rest, '.') {
                None => None,
                Some(k2) => match (
                    u32_text(numbers.take(k1)),
                    u32_text(rest.take(k2)),
                    u32_text(rest.skip(k2 + 1)),
                ) {
                    (Some(major), Some(minor), Some(patch)) => Some((major, minor, patch)),
                    _ => None,
                },
            }
        },
    }
}

/// What `Version::parse` accepts: `M.m.p`, optionally followed by `-` and
/// a suffix; a non-empty suffix marks a pre-release.
pub open spec fn version_text(s: Seq<char>) -> Option<Version> {
    let (numbers, pre) = match first_of(s, '-') {
        Some(k) => (s.take(k), s.skip(k + 1)),
        None => (s, Seq::empty()),
    };
    match numbers_text(numbers) {
        Some((major, minor, patch)) => Some(
            Version { major, minor, patch, is_prerelease: pre.len() > 0 },
        ),
        None => None,
    }
}

proof fn lemma_digits_prefix_grows(s: Seq<char>, i: int, j: int)
    requires
        0 <= i <= j <= s.len(),
    ensures
        digits_value(s.take(i)) <= digits_value(s.take(j)),
    decreases j - i,
{
    if i < j {
        lemma_digits_prefix_grows(s, i, j - 1);
        assert(s.take(j).drop_last() =~= s.take(j - 1));
    }
}

/// Parses the digits of `s` from `start` on, with no sign.
fn parse_digits(s: &str, start: usize) -> (r: Option<u32>)
    requires
        start <= s@.len(),
    ensures
        r == digits_text(s@.skip(start as int)),
{
    let n = s.unicode_len();
    let ghost d = s@.skip(start as int);
    if start == n {
        return None;
    }
    let mut value: u32 = 0;
    let mut i: usize = start;
    while i < n
        invariant
            n == s@.len(),
            start <= i <= n,
            d == s@.skip(start as int),
            forall|k: int| 0 <= k < i - start ==> is_ascii_digit(#[trigger] d[k]),
            value == digits_value(d.take(i - start)),
        decreases n - i,
    {
        let c = s.get_char(i);
        assert(c == d[i - start]);
        if c < '0' || c > '9' {
            return None;
        }
        let digit = (c as u32) - 48;
        assert(d.take(i - start + 1).drop_last() =~= d.take(i - start));
        if value > (u32::MAX - digit) / 10 {
            proof {
                assert(digits_value(d.take(i - start + 1)) == value * 10 + digit);
                lemma_digits_prefix_grows(d, i - start + 1, d.len() as int);
                assert(d.take(d.len() as int) =~= d);
            }
            return None;
        }
        value = value * 10 + digit;
        i = i + 1;
    }
    assert(d.take(n - start) =~= d);
    Some(value)
}

/// Parses a `u32` as `str::parse` does: an optional `+`, then decimal
/// digits.
pub fn parse_u32(s: &str) -> (r: Option<u32>)
    ensures
        r == u32_text(s@),
{
    let n = s.unicode_len();
    if n > 0 && s.get_char(0) == '+' {
        assert(s@.skip(1) =~= s@.drop_first());
        parse_digits(s, 1)
    } else {
        assert(s@.skip(0) =~= s@);
        parse_digits(s, 0)
    }
}

/// The position of the first `c` in `s`.
pub fn find_char(s: &str, c: char) -> (r: Option<usize>)
    ensures
        match r {
            Some(k) => first_of(s@, c) == Some(k as int) && k < s@.len(),
            None => first_of(s@, c) is None,
        },
{
    let n = s.unicode_len();
    let mut i: usize = 0;
    proof {
        lemma_first_of(s@, c);
    }
    while i < n
        invariant
            n == s@.len(),
            i <= n,
            forall|j: int| 0 <= j < i ==> s@[j] != c,
            match first_of(s@, c) {
                Some(k) => 0 <= k < s@.len() && s@[k] == c && forall|j: int| 0 <= j < k ==> s@[j] != c,
                None => forall|j: int| 0 <= j < s@.len() ==> s@[j] != c,
            },
        decreases n - i,
    {
        if s.get_char(i) == c {
            return Some(i);
        }
        i = i + 1;
    }
    None
}

/// The `M.m.p` part of a version.
fn parse_numbers(numbers: &str) -> (r: Option<(u32, u32, u32)>)
    ensures
        r == numbers_text(numbers@),
{
    let m = numbers.unicode_len();
    let k1 = match find_char(numbers, '.') {
        Some(k) => k,
        None => return None,
    };
    let rest = numbers.substring_char(k1 + 1, m);
    let rest_len = rest.unicode_len();
    assert(numbers@.skip(k1 + 1) =~= rest@);
    let k2 = match find_char(rest, '.') {
        Some(k) => k,
        None => return None,
    };
    let major_text = numbers.substring_char(0, k1);
    let minor_text = rest.substring_char(0, k2);
    let patch_text = rest.substring_char(k2 + 1, rest_len);
    assert(major_text@ =~= numbers@.take(k1 as int));
    assert(minor_text@ =~= rest@.take(k2 as int));
    assert(patch_text@ =~= rest@.skip(k2 + 1));
    let major = parse_u32(major_text);
    let minor = parse_u32(minor_text);
    let patch = parse_u32(patch_text);
    match (major, minor, patch) {
        (Some(major), Some(minor), Some(patch)) => Some((major, minor, patch)),
        _ => None,
    }
}

impl Version {
    pub fn new(major: u32, minor: u32, patch: u32, is_prerelease: bool) -> (r: Self)
        ensures
            r == (Version { major, minor, patch, is_prerelease }),
    {
        Version { major, minor, patch, is_prerelease }
    }

    /// Whether `self` orders after `other`.
    pub fn is_newer_than(&self, other: &Version) -> (r: bool)
        ensures
            r == version_after(*self, *other),
    {
        if self.major != other.major {
            self.major > other.major
        } else if self.minor != other.minor {
            self.minor > other.minor
        } else if self.patch != other.patch {
            self.patch > other.patch
        } else {
            self.is_prerelease && !other.is_prerelease
        }
    }

    /// Reads `M.m.p` or `M.m.p-suffix`.
    pub fn parse(s: &str) -> (r: Option<Version>)
        ensures
            r == version_text(s@),
    {
        let n = s.unicode_len();
        let (numbers, pre_len) = match find_char(s, '-') {
            Some(k) => {
                let numbers = s.substring_char(0, k);
                assert(numbers@ =~= s@.take(k as int));
                (numbers, n - k - 1)
            },
            None => (s, 0),
        };
        match parse_numbers(numbers) {
            Some((major, minor, patch)) => Some(
                Version { major, minor, patch, is_prerelease: pre_len > 0 },
            ),
            None => None,
        }
    }
}

/// How `a` orders against `b`.
pub open spec fn version_order(a: Version, b: Version) -> core::cmp::Ordering {
    if version_after(a, b) {
        core::cmp::Ordering::Greater
    } else if a == b {
        core::cmp::Ordering::Equal
    } else {
        core::cmp::Ordering::Less
    }
}

impl PartialOrd for Version {
    fn partial_cmp(&self, other: &Version) -> Option<core::cmp::Ordering> {
        if self.is_newer_than(other) {
            Some(core::cmp::Ordering::Greater)
        } else if *self == *other {
            Some(core::cmp::Ordering::Equal)
        } else {
            Some(core::cmp::Ordering::Less)
        }
    }
}

impl vstd::std_specs::cmp::PartialOrdSpecImpl for Version {
    open spec fn obeys_partial_cmp_spec() -> bool {
        true
    }

    open spec fn partial_cmp_spec(&self, other: &Version) -> Option<core::cmp::Ordering> {
        Some(version_order(*self, *other))
    }
}

impl core::str::FromStr for Version {
    type Err = ();

    fn from_str(s: &str) -> Result<Version, ()> {
        match Version::parse(s) {
            Some(v) => Ok(v),
            None => Err(()),
        }
    }
}

/// Whether `latest` is newer than `current`, and `latest` itself, when the
/// first line of `response` holds a version (surrounding spaces and tabs
/// aside).
pub fn update_status(response: &str, current: &Version) -> (r: Option<(bool, Version)>)
    ensures
        match version_text(first_line_trimmed(response@)) {
            Some(v) => r == Some((version_after(v, *current), v)),
            None => r is None,
        },
{
    let line = first_line(response);
    let trimmed = trim_blanks(line);
    match Version::parse(trimmed) {
        Some(v) => Some((v.is_newer_than(current), v)),
        None => None,
    }
}

/// The characters that `char::is_whitespace` accepts: Unicode White_Space.
pub open spec fn is_blank(c: char) -> bool {
    ('\u{9}' <= c && c <= '\u{d}') || c == ' ' || c == '\u{85}' || c == '\u{a0}' || c
        == '\u{1680}' || ('\u{2000}' <= c && c <= '\u{200a}') || c == '\u{2028}' || c == '\u{2029}'
        || c == '\u{202f}' || c == '\u{205f}' || c == '\u{3000}'
}

/// The first line of `s`, without white space at either end.
pub open spec fn first_line_trimmed(s: Seq<char>) -> Seq<char> {
    let line = match first_of(s, '\n') {
        Some(k) => s.take(k),
        None => s,
    };
    trim_end(trim_start(line))
}

pub open spec fn trim_start(s: Seq<char>) -> Seq<char>
    decreases s.len(),
{
    if s.len() > 0 && is_blank(s[0]) {
        trim_start(s.drop_first())
    } else {
        s
    }
}

pub open spec fn trim_end(s: Seq<char>) -> Seq<char>
    decreases s.len(),
{
    if s.len() > 0 && is_blank(s.last()) {
        trim_end(s.drop_last())
    } else {
        s
    }
}

fn first_line(s: &str) -> (r: &str)
    ensures
        r@ == match first_of(s@, '\n') {
            Some(k) => s@.take(k),
            None => s@,
        },
{
    match find_char(s, '\n') {
        Some(k) => {
            let r = s.substring_char(0, k);
            assert(r@ =~= s@.take(k as int));
            r
        },
        None => {
            let n = s.unicode_len();
            let r = s.substring_char(0, n);
            assert(r@ =~= s@);
            r
        },
    }
}

fn blank_at(s: &str, i: usize) -> (r: bool)
    requires
        i < s@.len(),
    ensures
        r == is_blank(s@[i as int]),
{
    let c = s.get_char(i);
    ('\u{9}' <= c && c <= '\u{d}') || c == ' ' || c == '\u{85}' || c == '\u{a0}' || c
        == '\u{1680}' || ('\u{2000}' <= c && c <= '\u{200a}') || c == '\u{2028}' || c == '\u{2029}'
        || c == '\u{202f}' || c == '\u{205f}' || c == '\u{3000}'
}

/// `s` without white space at either end, as `str::trim` leaves it.
fn trim_blanks(s: &str) -> (r: &str)
    ensures
        r@ == trim_end(trim_start(s@)),
{
    let n = s.unicode_len();
    let mut a: usize = 0;
    assert(s@.skip(0) =~= s@);
    while a < n && blank_at(s, a)
        invariant
            n == s@.len(),
            a <= n,
            trim_start(s@) == trim_start(s@.skip(a as int)),
        decreases n - a,
    {
        assert(s@.skip(a as int).drop_first() =~= s@.skip(a as int + 1));
        a = a + 1;
    }
    let rest = s.substring_char(a, n);
    assert(rest@ =~= s@.skip(a as int));
    let m = rest.unicode_len();
    let mut b: usize = m;
    assert(rest@.take(m as int) =~= rest@);
    while b > 0 && blank_at(rest, b - 1)
        invariant
            m == rest@.len(),
            b <= m,
            trim_end(rest@) == trim_end(rest@.take(b as int)),
        decreases b,
    {
        assert(rest@.take(b as int).drop_last() =~= rest@.take(b as int - 1));
        b = b - 1;
    }
    let r = rest.substring_char(0, b);
    assert(r@ =~= rest@.take(b as int));
    r
}

} // verus!

//! Dotted version strings.
//!
//! The license server reports each product's version as a string of the shape
//! `"MAJOR.MINOR"`.  Both halves must be non-empty runs of decimal digits
//! whose values fit the 8-bit range the server emits; anything else is a
//! parse failure, never a default or a truncated value.

use vstd::prelude::*;

verus! {

/// A parsed `"MAJOR.MINOR"` version.
#[derive(Clone, Copy, Debug, PartialEq, Eq, Structural)]
pub struct HoudiniVersion {
    pub major: u8,
    pub minor: u8,
}

/// Why a version string failed to parse.
#[derive(Clone, Copy, Debug, PartialEq, Eq, Structural)]
pub enum VersionParseError {
    /// The string holds no `.` separator.
    NoSeparator,
    /// The part before the first `.` is not a decimal number in 0..=255.
    InvalidMajor,
    /// The part after the first `.` is not a decimal number in 0..=255.
    InvalidMinor,
}

pub open spec fn is_decimal_digit(c: char) -> bool {
    '0' <= c <= '9'
}

pub open spec fn digit_value(c: char) -> int {
    c as int - '0' as int
}

pub open spec fn all_decimal_digits(s: Seq<char>) -> bool {
    forall|i: int| 0 <= i < s.len() ==> is_decimal_digit(#[trigger] s[i])
}

/// The value of a run of decimal digits, most significant first.
pub open spec fn digits_value(s: Seq<char>) -> int
    decreases s.len(),
{
    if s.len() == 0 {
        0
    } else {
        digits_value(s.drop_last()) * 10 + digit_value(s.last())
    }
}

/// A non-empty, all-digit run whose value fits the 8-bit width the server
/// emits.
pub open spec fn valid_component(s: Seq<char>) -> bool {
    s.len() > 0 && all_decimal_digits(s) && digits_value(s) <= 255
}

/// Index of the first `.` in `s`, or -1 when there is none.
pub open spec fn first_dot(s: Seq<char>) -> int
    decreases s.len(),
{
    if s.len() == 0 {
        -1
    } else if s[0] == '.' {
        0
    } else if first_dot(s.drop_first()) < 0 {
        -1
    } else {
        first_dot(s.drop_first()) + 1
    }
}

/// What parsing a version string returns, as a function of its characters:
/// split on the first `.`, then read each half as a decimal number in
/// 0..=255.
pub open spec fn spec_parse_version(s: Seq<char>) -> Result<HoudiniVersion, VersionParseError> {
    let i = first_dot(s);
    if i < 0 {
        Err(VersionParseError::NoSeparator)
    } else if !valid_component(s.subrange(0, i)) {
        Err(VersionParseError::InvalidMajor)
    } else if !valid_component(s.subrange(i + 1, s.len() as int)) {
        Err(VersionParseError::InvalidMinor)
    } else {
        Ok(
            HoudiniVersion {
                major: digits_value(s.subrange(0, i)) as u8,
                minor: digits_value(s.subrange(i + 1, s.len() as int)) as u8,
            },
        )
    }
}

proof fn lemma_first_dot_none(s: Seq<char>)
    requires
        forall|i: int| 0 <= i < s.len() ==> s[i] != '.',
    ensures
        first_dot(s) == -1,
    decreases s.len(),
{
    if s.len() > 0 {
        assert(forall|i: int| 0 <= i < s.drop_first().len() ==> s.drop_first()[i] != '.');
        lemma_first_dot_none(s.drop_first());
    }
}

proof fn lemma_first_dot_at(s: Seq<char>, i: int)
    requires
        0 <= i < s.len(),
        s[i] == '.',
        forall|j: int| 0 <= j < i ==> s[j] != '.',
    ensures
        first_dot(s) == i,
    decreases s.len(),
{
    if i == 0 {
    } else {
        assert(s.drop_first()[i - 1] == '.');
        assert(forall|j: int| 0 <= j < i - 1 ==> s.drop_first()[j] != '.');
        lemma_first_dot_at(s.drop_first(), i - 1);
    }
}

pub open spec fn digit_char(d: int) -> char {
    if d == 0 {
        '0'
    } else if d == 1 {
        '1'
    } else if d == 2 {
        '2'
    } else if d == 3 {
        '3'
    } else if d == 4 {
        '4'
    } else if d == 5 {
        '5'
    } else if d == 6 {
        '6'
    } else if d == 7 {
        '7'
    } else if d == 8 {
        '8'
    } else {
        '9'
    }
}

/// The decimal rendering of a non-negative number, most significant digit
/// first, with no leading zeros (and `0` rendered as `"0"`).
pub open spec fn decimal_chars(n: int) -> Seq<char>
    decreases n,
{
    if n <= 9 {
        seq![digit_char(n)]
    } else {
        decimal_chars(n / 10).push(digit_char(n % 10))
    }
}

/// The canonical rendering of a version: `"MAJOR.MINOR"` in decimal.
pub open spec fn version_chars(v: HoudiniVersion) -> Seq<char> {
    decimal_chars(v.major as int) + seq!['.'] + decimal_chars(v.minor as int)
}

/// Read the digits of `s@` between `from` and `to` as a decimal number in
/// 0..=255; `None` when the range is empty, holds a non-digit, or its value
/// is above 255.
fn parse_component(s: &str, from: usize, to: usize) -> (r: Option<u8>)
    requires
        from <= to <= s@.len(),
    ensures
        r is Some <==> valid_component(s@.subrange(from as int, to as int)),
        r is Some ==> r->0 == digits_value(s@.subrange(from as int, to as int)),
{
    if from == to {
        assert(!valid_component(s@.subrange(from as int, to as int)));
        return None;
    }
    let ghost whole = s@.subrange(from as int, to as int);
    let mut acc: u32 = 0;
    let mut i: usize = from;
    while i < to
        invariant
            from <= i <= to <= s@.len(),
            whole == s@.subrange(from as int, to as int),
            all_decimal_digits(s@.subrange(from as int, i as int)),
            acc <= 255 ==> acc == digits_value(s@.subrange(from as int, i as int)),
            acc > 255 ==> digits_value(s@.subrange(from as int, i as int)) > 255,
            acc <= 2559,
        decreases to - i,
    {
        let c = s.get_char(i);
        if c < '0' || c > '9' {
            assert(whole[i - from] == c);
            assert(!all_decimal_digits(whole));
            return None;
        }
        let d: u32 = (c as u32) - ('0' as u32);
        assert(s@.subrange(from as int, (i + 1) as int).drop_last() == s@.subrange(
            from as int,
            i as int,
        ));
        assert(s@.subrange(from as int, (i + 1) as int).last() == c);
        if acc <= 255 {
            acc = acc * 10 + d;
        } else {
            proof {
                let prev = digits_value(s@.subrange(from as int, i as int));
                assert(digits_value(s@.subrange(from as int, (i + 1) as int)) == prev * 10
                    + digit_value(c));
            }
        }
        i += 1;
    }
    assert(s@.subrange(from as int, to as int) == s@.subrange(from as int, i as int));
    if acc <= 255 {
        Some(acc as u8)
    } else {
        None
    }
}

/// Parse a `"MAJOR.MINOR"` string: split on the first `.`, then read each
/// half as a decimal number in 0..=255.  Larger values fail rather than
/// truncate.
pub fn parse_version(s: &str) -> (r: Result<HoudiniVersion, VersionParseError>)
    ensures
        r == spec_parse_version(s@),
{
    let n = s.unicode_len();
    let mut i: usize = 0;
    while i < n
        invariant
            0 <= i <= n == s@.len(),
            forall|j: int| 0 <= j < i ==> s@[j] != '.',
        decreases n - i,
    {
        if s.get_char(i) == '.' {
            proof {
                lemma_first_dot_at(s@, i as int);
            }
            let major = parse_component(s, 0, i);
            let minor = parse_component(s, i + 1, n);
            match (major, minor) {
                (None, _) => {
                    return Err(VersionParseError::InvalidMajor);
                },
                (Some(_), None) => {
                    return Err(VersionParseError::InvalidMinor);
                },
                (Some(major), Some(minor)) => {
                    return Ok(HoudiniVersion { major, minor });
                },
            }
        }
        i += 1;
    }
    proof {
        lemma_first_dot_none(s@);
    }
    Err(VersionParseError::NoSeparator)
}

fn digit_str(d: u8) -> (r: &'static str)
    requires
        d < 10,
    ensures
        r@ == seq![digit_char(d as int)],
{
    let r: &'static str = match d {
        0 => "0",
        1 => "1",
        2 => "2",
        3 => "3",
        4 => "4",
        5 => "5",
        6 => "6",
        7 => "7",
        8 => "8",
        _ => "9",
    };
    proof {
        reveal_strlit("0");
        reveal_strlit("1");
        reveal_strlit("2");
        reveal_strlit("3");
        reveal_strlit("4");
        reveal_strlit("5");
        reveal_strlit("6");
        reveal_strlit("7");
        reveal_strlit("8");
        reveal_strlit("9");
        assert(r@ =~= seq![digit_char(d as int)]);
    }
    r
}

fn u8_decimal(n: u8) -> (r: String)
    ensures
        r@ == decimal_chars(n as int),
{
    let mut out = String::new();
    if n >= 100 {
        out.append(digit_str(n / 100));
        out.append(digit_str((n / 10) % 10));
    } else if n >= 10 {
        out.append(digit_str(n / 10));
    }
    out.append(digit_str(n % 10));
    proof {
        if n >= 100 {
            assert(decimal_chars(n as int) == decimal_chars(n as int / 10).push(
                digit_char(n as int % 10),
            ));
            assert(decimal_chars(n as int / 10) == decimal_chars(n as int / 10 / 10).push(
                digit_char(n as int / 10 % 10),
            ));
            assert(n as int / 10 / 10 == n as int / 100);
            assert(out@ =~= decimal_chars(n as int));
        } else if n >= 10 {
            assert(decimal_chars(n as int) == decimal_chars(n as int / 10).push(
                digit_char(n as int % 10),
            ));
            assert(out@ =~= decimal_chars(n as int));
        } else {
            assert(out@ =~= decimal_chars(n as int));
        }
    }
    out
}

/// Render a version back to its `"MAJOR.MINOR"` string.
pub fn format_version(v: &HoudiniVersion) -> (r: String)
    ensures
        r@ == version_chars(*v),
{
    let mut out = u8_decimal(v.major);
    out.append(".");
    let minor = u8_decimal(v.minor);
    out.append(minor.as_str());
    proof {
        reveal_strlit(".");
        assert(out@ =~= version_chars(*v));
    }
    out
}

proof fn lemma_decimal_chars_digits(n: int)
    requires
        0 <= n,
    ensures
        decimal_chars(n).len() > 0,
        all_decimal_digits(decimal_chars(n)),
    decreases n,
{
    if n > 9 {
        lemma_decimal_chars_digits(n / 10);
        assert forall|i: int| 0 <= i < decimal_chars(n).len() implies is_decimal_digit(
            #[trigger] decimal_chars(n)[i],
        ) by {
            if i < decimal_chars(n / 10).len() {
                assert(decimal_chars(n)[i] == decimal_chars(n / 10)[i]);
            }
        }
    }
}

proof fn lemma_digit_char_value(d: int)
    requires
        0 <= d <= 9,
    ensures
        digit_value(digit_char(d)) == d,
{
}

proof fn lemma_decimal_chars_value(n: int)
    requires
        0 <= n,
    ensures
        digits_value(decimal_chars(n)) == n,
    decreases n,
{
    if n <= 9 {
        lemma_digit_char_value(n);
        assert(digits_value(Seq::<char>::empty()) == 0);
        assert(decimal_chars(n).drop_last() =~= Seq::<char>::empty());
        assert(decimal_chars(n).last() == digit_char(n));
        assert(digits_value(decimal_chars(n)) == digits_value(decimal_chars(n).drop_last()) * 10
            + digit_value(decimal_chars(n).last()));
    } else {
        lemma_decimal_chars_value(n / 10);
        lemma_digit_char_value(n % 10);
        assert(decimal_chars(n).drop_last() =~= decimal_chars(n / 10));
        assert(decimal_chars(n).last() == digit_char(n % 10));
        assert(digits_value(decimal_chars(n)) == digits_value(decimal_chars(n / 10)) * 10
            + digit_value(digit_char(n % 10)));
        assert(n / 10 * 10 + n % 10 == n);
    }
}

/// Parsing the canonical rendering of any version recovers it exactly: the
/// two components survive a format/parse round trip.
pub proof fn lemma_version_round_trip(v: HoudiniVersion)
    ensures
        spec_parse_version(version_chars(v)) == Ok::<
            HoudiniVersion,
            VersionParseError,
        >(v),
{
    let s = version_chars(v);
    let a = decimal_chars(v.major as int);
    let b = decimal_chars(v.minor as int);
    lemma_decimal_chars_digits(v.major as int);
    lemma_decimal_chars_digits(v.minor as int);
    lemma_decimal_chars_value(v.major as int);
    lemma_decimal_chars_value(v.minor as int);
    let i = a.len() as int;
    assert(s[i] == '.');
    assert forall|j: int| 0 <= j < i implies s[j] != '.' by {
        assert(s[j] == a[j]);
        assert(is_decimal_digit(a[j]));
    }
    lemma_first_dot_at(s, i);
    assert(s.subrange(0, i) =~= a);
    assert(s.subrange(i + 1, s.len() as int) =~= b);
    assert(valid_component(a));
    assert(valid_component(b));
}

/// For every well-formed version string, parsing and then reformatting
/// preserves the two component values exactly: the rendering of the parsed
/// version parses back to the very same version.
pub proof fn lemma_parse_then_reformat_preserves(s: Seq<char>)
    requires
        spec_parse_version(s) is Ok,
    ensures
        ({
            let v = spec_parse_version(s)->Ok_0;
            spec_parse_version(version_chars(v)) == Ok::<HoudiniVersion, VersionParseError>(v)
        }),
{
    lemma_version_round_trip(spec_parse_version(s)->Ok_0);
}

} // verus!

//! Small, fully specified text helpers shared by the rest of the crate:
//! decimal spelling and parsing of integers, string building, and the
//! whitespace/line rules that the Steam response checks rely on.
use vstd::prelude::*;

verus! {

/// Decimal digit character for a value below ten.
pub open spec fn digit_char(d: nat) -> char {
    if d == 0 {
        '0'
    } else if d == 1 {
        '1'
    } else if d == 2 {
        '2'
    } else if d == 3 {
        '3'
    } else if d == 4 {
        '4'
    } else if d == 5 {
        '5'
    } else if d == 6 {
        '6'
    } else if d == 7 {
        '7'
    } else if d == 8 {
        '8'
    } else {
        '9'
    }
}

/// An ASCII decimal digit.
pub open spec fn is_digit(c: char) -> bool {
    '0' <= c && c <= '9'
}

/// The value of an ASCII decimal digit.
pub open spec fn digit_value(c: char) -> nat {
    (c as int - '0' as int) as nat
}

/// The shortest decimal spelling of `n` (no sign, no leading zeros).
pub open spec fn decimal(n: nat) -> Seq<char>
    decreases n,
{
    if n < 10 {
        seq![digit_char(n)]
    } else {
        decimal(n / 10).push(digit_char(n % 10))
    }
}

/// The decimal spelling of a signed integer: a `-` before negative values.
pub open spec fn signed_decimal(n: int) -> Seq<char> {
    if n < 0 {
        seq!['-'] + decimal((-n) as nat)
    } else {
        decimal(n as nat)
    }
}

/// Appends one character to a string.
#[verifier::external_body]
pub(crate) fn push_char(s: &mut String, c: char)
    ensures
        final(s)@ == old(s)@.push(c),
{
    s.push(c);
}

fn digit_to_char(d: u64) -> (c: char)
    requires
        d < 10,
    ensures
        c == digit_char(d as nat),
{
    if d == 0 {
        '0'
    } else if d == 1 {
        '1'
    } else if d == 2 {
        '2'
    } else if d == 3 {
        '3'
    } else if d == 4 {
        '4'
    } else if d == 5 {
        '5'
    } else if d == 6 {
        '6'
    } else if d == 7 {
        '7'
    } else if d == 8 {
        '8'
    } else {
        '9'
    }
}

/// Appends the decimal spelling of `n` to `out`.
pub fn push_decimal(out: &mut String, n: u64)
    ensures
        final(out)@ == old(out)@ + decimal(n as nat),
    decreases n,
{
    if n < 10 {
        push_char(out, digit_to_char(n));
        assert(decimal(n as nat) == seq![digit_char(n as nat)]);
    } else {
        push_decimal(out, n / 10);
        push_char(out, digit_to_char(n % 10));
        assert(decimal(n as nat) == decimal((n / 10) as nat).push(digit_char((n % 10) as nat)));
    }
}

/// The decimal spelling of `n`, as `u64::to_string` writes it.
pub fn u64_to_decimal(n: u64) -> (s: String)
    ensures
        s@ == decimal(n as nat),
{
    let mut s = String::new();
    push_decimal(&mut s, n);
    assert(s@ =~= decimal(n as nat));
    s
}

/// The decimal spelling of `n`, as `i64::to_string` writes it.
pub fn i64_to_decimal(n: i64) -> (s: String)
    ensures
        s@ == signed_decimal(n as int),
{
    let mut s = String::new();
    if n < 0 {
        push_char(&mut s, '-');
        // the magnitude of i64::MIN does not fit in i64, but always fits in u64
        let magnitude: u64 = if n == i64::MIN {
            9_223_372_036_854_775_808u64
        } else {
            (-n) as u64
        };
        push_decimal(&mut s, magnitude);
        assert(s@ =~= signed_decimal(n as int));
    } else {
        push_decimal(&mut s, n as u64);
        assert(s@ =~= signed_decimal(n as int));
    }
    s
}

/// Why an unsigned integer could not be parsed, as `std` classifies it.
#[derive(Debug, Clone, Copy, PartialEq, Eq, Structural)]
pub enum IntParseError {
    Empty,
    InvalidDigit,
    PosOverflow,
}

impl IntParseError {
    /// The message `std`'s `ParseIntError` displays for this kind.
    pub open spec fn spec_message(self) -> Seq<char> {
        match self {
            IntParseError::Empty => "cannot parse integer from empty string"@,
            IntParseError::InvalidDigit => "invalid digit found in string"@,
            IntParseError::PosOverflow => "number too large to fit in target type"@,
        }
    }

    pub fn message(&self) -> (s: String)
        ensures
            s@ == self.spec_message(),
    {
        match self {
            IntParseError::Empty => {
                proof {
                    reveal_strlit("cannot parse integer from empty string");
                }
                String::from_str("cannot parse integer from empty string")
            },
            IntParseError::InvalidDigit => {
                proof {
                    reveal_strlit("invalid digit found in string");
                }
                String::from_str("invalid digit found in string")
            },
            IntParseError::PosOverflow => {
                proof {
                    reveal_strlit("number too large to fit in target type");
                }
                String::from_str("number too large to fit in target type")
            },
        }
    }
}

/// Reads the digits `s[i..]` onto `acc`, left to right, failing at the
/// first non-digit or at the first step whose value exceeds `u64::MAX`.
pub open spec fn parse_digits_from(s: Seq<char>, i: int, acc: nat) -> Result<u64, IntParseError>
    decreases s.len() - i,
{
    if i >= s.len() {
        Ok(acc as u64)
    } else if !is_digit(s[i]) {
        Err(IntParseError::InvalidDigit)
    } else if acc * 10 + digit_value(s[i]) > u64::MAX {
        Err(IntParseError::PosOverflow)
    } else {
        parse_digits_from(s, i + 1, acc * 10 + digit_value(s[i]))
    }
}

/// What `str::parse::<u64>` returns: an optional leading `+`, then one or
/// more decimal digits whose value fits in a `u64`.
pub open spec fn spec_parse_u64(s: Seq<char>) -> Result<u64, IntParseError> {
    if s.len() == 0 {
        Err(IntParseError::Empty)
    } else if s[0] == '+' && s.len() == 1 {
        Err(IntParseError::InvalidDigit)
    } else if s[0] == '+' {
        parse_digits_from(s, 1, 0)
    } else {
        parse_digits_from(s, 0, 0)
    }
}

/// Parses an unsigned decimal integer with exactly the rules of
/// `str::parse::<u64>`.
pub fn parse_u64(s: &str) -> (r: Result<u64, IntParseError>)
    ensures
        r == spec_parse_u64(s@),
{
    let n = s.unicode_len();
    if n == 0 {
        return Err(IntParseError::Empty);
    }
    let first = s.get_char(0);
    let mut i: usize = 0;
    if first == '+' {
        if n == 1 {
            return Err(IntParseError::InvalidDigit);
        }
        i = 1;
    }
    let ghost start = i as int;
    let mut acc: u64 = 0;
    while i < n
        invariant
            n == s@.len(),
            start <= i <= n,
            spec_parse_u64(s@) == parse_digits_from(s@, start, 0),
            acc <= u64::MAX,
            parse_digits_from(s@, start, 0) == parse_digits_from(s@, i as int, acc as nat),
        decreases n - i,
    {
        let c = s.get_char(i);
        if !('0' <= c && c <= '9') {
            return Err(IntParseError::InvalidDigit);
        }
        let d = (c as u32 - '0' as u32) as u64;
        assert(d == digit_value(c));
        if acc > 1_844_674_407_370_955_161u64 || (acc == 1_844_674_407_370_955_161u64 && d > 5) {
            assert(acc * 10 + d > u64::MAX);
            return Err(IntParseError::PosOverflow);
        }
        acc = acc * 10 + d;
        i = i + 1;
    }
    Ok(acc)
}

/// Decimal spelling followed by parsing gives the number back.
pub proof fn lemma_parse_decimal_roundtrip(n: u64)
    ensures
        spec_parse_u64(decimal(n as nat)) == Ok::<u64, IntParseError>(n),
{
    lemma_decimal_digits(n as nat);
    lemma_parse_prefix_value(n as nat);
}

proof fn lemma_decimal_digits(n: nat)
    ensures
        decimal(n).len() >= 1,
        forall|i: int| 0 <= i < decimal(n).len() ==> is_digit(#[trigger] decimal(n)[i]),
        decimal(n)[0] != '+',
    decreases n,
{
    if n >= 10 {
        lemma_decimal_digits(n / 10);
    }
}

/// The digits of `decimal(n)` read from the left accumulate, after `k`
/// digits, the value of the first `k` digits; every intermediate value is
/// at most `n`.
proof fn lemma_parse_prefix_value(n: nat)
    requires
        n <= u64::MAX,
    ensures
        parse_digits_from(decimal(n), 0, 0) == Ok::<u64, IntParseError>(n as u64),
    decreases n,
{
    if n < 10 {
        let s = decimal(n);
        assert(s == seq![digit_char(n)]);
        lemma_digit_char_value(n);
        assert(parse_digits_from(s, 1, n) == Ok::<u64, IntParseError>(n as u64));
    } else {
        lemma_parse_prefix_value(n / 10);
        lemma_parse_append_digit(decimal(n / 10), 0, 0, n % 10);
        lemma_digit_char_value(n % 10);
    }
}

proof fn lemma_digit_char_value(d: nat)
    requires
        d < 10,
    ensures
        is_digit(digit_char(d)),
        digit_value(digit_char(d)) == d,
{
}

/// Appending one digit to a string that parses to `v` parses to `10v + d`
/// when that fits.
proof fn lemma_parse_append_digit(s: Seq<char>, i: int, acc: nat, d: nat)
    requires
        0 <= i <= s.len(),
        d < 10,
        acc <= u64::MAX,
        parse_digits_from(s, i, acc) is Ok,
        (parse_digits_from(s, i, acc)->Ok_0 as nat) * 10 + d <= u64::MAX,
    ensures
        parse_digits_from(s.push(digit_char(d)), i, acc) == Ok::<u64, IntParseError>(
            ((parse_digits_from(s, i, acc)->Ok_0 as nat) * 10 + d) as u64,
        ),
    decreases s.len() - i,
{
    lemma_digit_char_value(d);
    let t = s.push(digit_char(d));
    if i >= s.len() {
        assert(parse_digits_from(s, i, acc) == Ok::<u64, IntParseError>(acc as u64));
        assert(t[i] == digit_char(d));
        assert(parse_digits_from(t, i + 1, acc * 10 + d) == Ok::<u64, IntParseError>(
            (acc * 10 + d) as u64,
        ));
    } else {
        assert(t[i] == s[i]);
        let a2 = acc * 10 + digit_value(s[i]);
        lemma_parse_append_digit(s, i + 1, a2, d);
    }
}



/// Whether `s` begins with `prefix`.
pub open spec fn spec_starts_with(s: Seq<char>, prefix: Seq<char>) -> bool {
    prefix.len() <= s.len() && s.subrange(0, prefix.len() as int) == prefix
}

pub fn starts_with(s: &str, prefix: &str) -> (r: bool)
    ensures
        r == spec_starts_with(s@, prefix@),
{
    let n = s.unicode_len();
    let m = prefix.unicode_len();
    if m > n {
        return false;
    }
    let mut i: usize = 0;
    while i < m
        invariant
            n == s@.len(),
            m == prefix@.len(),
            m <= n,
            i <= m,
            forall|j: int| 0 <= j < i ==> s@[j] == prefix@[j],
        decreases m - i,
    {
        if s.get_char(i) != prefix.get_char(i) {
            assert(s@.subrange(0, m as int)[i as int] != prefix@[i as int]);
            return false;
        }
        i = i + 1;
    }
    assert(s@.subrange(0, m as int) =~= prefix@);
    true
}



/// Character-wise equality of two string slices.
pub fn str_eq(a: &str, b: &str) -> (r: bool)
    ensures
        r == (a@ == b@),
{
    let n = a.unicode_len();
    if n != b.unicode_len() {
        return false;
    }
    let r = starts_with(a, b);
    assert(a@.subrange(0, n as int) =~= a@);
    r
}



/// `parts` separated by `sep`, as `[&str]::join` builds it.
pub open spec fn join(parts: Seq<Seq<char>>, sep: Seq<char>) -> Seq<char>
    decreases parts.len(),
{
    if parts.len() == 0 {
        Seq::empty()
    } else if parts.len() == 1 {
        parts[0]
    } else {
        join(parts.drop_last(), sep) + sep + parts.last()
    }
}

/// The text of each slice.
pub open spec fn strs_view(parts: Seq<&str>) -> Seq<Seq<char>> {
    parts.map_values(|p: &str| p@)
}

/// Joins `parts` with `sep` between consecutive parts.
pub fn join_strs(parts: &Vec<&str>, sep: &str) -> (r: String)
    ensures
        r@ == join(strs_view(parts@), sep@),
{
    let mut out = String::new();
    let mut i: usize = 0;
    while i < parts.len()
        invariant
            i <= parts@.len(),
            out@ == join(strs_view(parts@.subrange(0, i as int)), sep@),
        decreases parts@.len() - i,
    {
        let ghost before = strs_view(parts@.subrange(0, i as int));
        let ghost after = strs_view(parts@.subrange(0, i + 1));
        assert(after.drop_last() =~= before);
        assert(after.last() == parts@[i as int]@);
        if i > 0 {
            out.append(sep);
        } else {
            assert(after =~= seq![parts@[0]@]);
        }
        out.append(parts[i]);
        i = i + 1;
    }
    assert(parts@.subrange(0, parts@.len() as int) =~= parts@);
    out
}



/// `s[i..j]` is one of the pieces that splitting `s` at every `sep` gives
/// (`str::split(sep)`): it contains no `sep` and is bounded on each side
/// by a `sep` or by the end of `s`.
pub open spec fn is_segment(s: Seq<char>, sep: char, i: int, j: int) -> bool {
    &&& 0 <= i <= j <= s.len()
    &&& (i == 0 || s[i - 1] == sep)
    &&& (j == s.len() || s[j] == sep)
    &&& forall|k: int| i <= k < j ==> s[k] != sep
}

/// Every piece of `s` split at `sep`, as `(start, end)` character
/// positions, in order.
pub fn segment_bounds(s: &str, sep: char) -> (r: Vec<(usize, usize)>)
    ensures
        forall|k: int| 0 <= k < r@.len() ==> is_segment(s@, sep, (#[trigger] r@[k]).0 as int, r@[k].1 as int),
        forall|i: int, j: int|
            is_segment(s@, sep, i, j) ==> exists|k: int|
                0 <= k < r@.len() && (#[trigger] r@[k]).0 as int == i && r@[k].1 as int == j,
{
    let n = s.unicode_len();
    let mut r: Vec<(usize, usize)> = Vec::new();
    let mut start: usize = 0;
    let mut pos: usize = 0;
    while pos < n
        invariant
            n == s@.len(),
            start <= pos <= n,
            start == 0 || s@[start - 1] == sep,
            forall|k: int| start <= k < pos ==> s@[k] != sep,
            forall|k: int| 0 <= k < r@.len() ==> is_segment(s@, sep, (#[trigger] r@[k]).0 as int, r@[k].1 as int),
            forall|i: int, j: int|
                is_segment(s@, sep, i, j) && i < start ==> exists|k: int|
                    0 <= k < r@.len() && (#[trigger] r@[k]).0 as int == i && r@[k].1 as int == j,
        decreases n - pos,
    {
        if s.get_char(pos) == sep {
            let ghost old_r = r@;
            r.push((start, pos));
            proof {
                assert forall|i: int, j: int|
                    is_segment(s@, sep, i, j) && i < pos + 1 implies exists|k: int|
                        0 <= k < r@.len() && (#[trigger] r@[k]).0 as int == i && r@[k].1 as int == j by {
                    if i < start {
                        let k = choose|k: int|
                            0 <= k < old_r.len() && (#[trigger] old_r[k]).0 as int == i && old_r[k].1 as int == j;
                        assert(r@[k] == old_r[k]);
                    } else {
                        if i > start {
                            assert(s@[i - 1] != sep);
                        }
                        assert(i == start);
                        if j < pos {
                            assert(s@[j] != sep);
                        }
                        if j > pos {
                            assert(s@[pos as int] == sep);
                        }
                        assert(j == pos);
                        assert(r@[old_r.len() as int].0 as int == i && r@[old_r.len() as int].1 as int == j);
                    }
                }
            }
            start = pos + 1;
        }
        pos = pos + 1;
    }
    let ghost old_r = r@;
    r.push((start, n));
    proof {
        assert forall|i: int, j: int| is_segment(s@, sep, i, j) implies exists|k: int|
            0 <= k < r@.len() && (#[trigger] r@[k]).0 as int == i && r@[k].1 as int == j by {
            if i < start {
                let k = choose|k: int|
                    0 <= k < old_r.len() && (#[trigger] old_r[k]).0 as int == i && old_r[k].1 as int == j;
                assert(r@[k] == old_r[k]);
            } else {
                if i > start {
                    assert(s@[i - 1] != sep);
                }
                assert(i == start);
                if j < n {
                    assert(s@[j] != sep);
                }
                assert(j == n);
                assert(r@[old_r.len() as int].0 as int == i && r@[old_r.len() as int].1 as int == j);
            }
        }
    }
    r
}



/// Unicode `White_Space`, the set `char::is_whitespace` tests.
pub open spec fn is_whitespace(c: char) -> bool {
    ||| c == '\t'
    ||| c == '\n'
    ||| c == '\u{0B}'
    ||| c == '\u{0C}'
    ||| c == '\r'
    ||| c == ' '
    ||| c == '\u{85}'
    ||| c == '\u{A0}'
    ||| c == '\u{1680}'
    ||| ('\u{2000}' <= c && c <= '\u{200A}')
    ||| c == '\u{2028}'
    ||| c == '\u{2029}'
    ||| c == '\u{202F}'
    ||| c == '\u{205F}'
    ||| c == '\u{3000}'
}

pub fn char_is_whitespace(c: char) -> (r: bool)
    ensures
        r == is_whitespace(c),
{
    c == '\t' || c == '\n' || c == '\u{0B}' || c == '\u{0C}' || c == '\r' || c == ' '
        || c == '\u{85}' || c == '\u{A0}' || c == '\u{1680}' || ('\u{2000}' <= c && c
        <= '\u{200A}') || c == '\u{2028}' || c == '\u{2029}' || c == '\u{202F}' || c
        == '\u{205F}' || c == '\u{3000}'
}

/// `s` without its leading whitespace.
pub open spec fn trim_start(s: Seq<char>) -> Seq<char>
    decreases s.len(),
{
    if s.len() > 0 && is_whitespace(s[0]) {
        trim_start(s.drop_first())
    } else {
        s
    }
}

/// `s` without its trailing whitespace.
pub open spec fn trim_end(s: Seq<char>) -> Seq<char>
    decreases s.len(),
{
    if s.len() > 0 && is_whitespace(s.last()) {
        trim_end(s.drop_last())
    } else {
        s
    }
}

/// `s` without leading and trailing whitespace, as `str::trim` gives it.
pub open spec fn spec_trim(s: Seq<char>) -> Seq<char> {
    trim_end(trim_start(s))
}

/// `s` without leading and trailing whitespace.
pub fn trim(s: &str) -> (r: &str)
    ensures
        r@ == spec_trim(s@),
{
    let n = s.unicode_len();
    let mut i: usize = 0;
    assert(s@.subrange(0, n as int) =~= s@);
    while i < n && char_is_whitespace(s.get_char(i))
        invariant
            n == s@.len(),
            i <= n,
            trim_start(s@) == trim_start(s@.subrange(i as int, n as int)),
        decreases n - i,
    {
        assert(s@.subrange(i as int, n as int).drop_first() =~= s@.subrange(i + 1, n as int));
        i = i + 1;
    }
    assert(trim_start(s@) == s@.subrange(i as int, n as int));
    let mut j: usize = n;
    while j > i && char_is_whitespace(s.get_char(j - 1))
        invariant
            n == s@.len(),
            i <= j <= n,
            trim_end(s@.subrange(i as int, n as int)) == trim_end(s@.subrange(i as int, j as int)),
        decreases j - i,
    {
        assert(s@.subrange(i as int, j as int).drop_last() =~= s@.subrange(i as int, j - 1));
        j = j - 1;
    }
    assert(trim_end(s@.subrange(i as int, j as int)) == s@.subrange(i as int, j as int));
    s.substring_char(i, j)
}

/// Whether `s` is empty or all whitespace.
pub fn is_blank(s: &str) -> (r: bool)
    ensures
        r == (spec_trim(s@).len() == 0),
{
    trim(s).unicode_len() == 0
}

} // verus!

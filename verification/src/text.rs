//! Text helpers on character sequences: substring search, trimming, and
//! decimal numbers.
//!
//! Every contract is stated over `Seq<char>`, the view of `str` and `String`.

use vstd::prelude::*;
use vstd::string::StrSliceExecFns;
use vstd::string::StringExecFns;

verus! {

/// The texts of some lines.
pub open spec fn texts(lines: Seq<String>) -> Seq<Seq<char>> {
    lines.map_values(|l: String| l@)
}

/// Collects the characters of `s`, in order.
pub fn to_chars(s: &str) -> (out: Vec<char>)
    ensures
        out@ == s@,
{
    let mut out: Vec<char> = Vec::new();
    for c in it: s.chars()
        invariant
            out@ == it.seq().take(it.index() as int),
            it.seq() == s@,
    {
        out.push(c);
    }
    out
}

/// `needle` stands in `hay` at offset `at`.
pub open spec fn occurs_at(needle: Seq<char>, hay: Seq<char>, at: int) -> bool {
    &&& 0 <= at
    &&& at + needle.len() <= hay.len()
    &&& hay.subrange(at, at + needle.len()) == needle
}

/// `needle` is a contiguous part of `hay`. The empty sequence is part of
/// every sequence.
pub open spec fn occurs_in(needle: Seq<char>, hay: Seq<char>) -> bool {
    exists|at: int| occurs_at(needle, hay, at)
}

/// The empty sequence occurs in every sequence, at offset 0.
pub proof fn empty_occurs_everywhere(hay: Seq<char>)
    ensures
        occurs_in(Seq::<char>::empty(), hay),
{
    assert(hay.subrange(0, 0) =~= Seq::<char>::empty());
    assert(occurs_at(Seq::<char>::empty(), hay, 0));
}

/// Compares `needle` with the part of `hay` that starts at `at`.
fn matches_at(needle: &Vec<char>, hay: &Vec<char>, at: usize) -> (same: bool)
    requires
        at + needle@.len() <= hay@.len(),
    ensures
        same == occurs_at(needle@, hay@, at as int),
{
    let total: usize = hay.len();
    let mut j: usize = 0;
    while j < needle.len()
        invariant
            j <= needle@.len(),
            at + needle@.len() <= hay@.len(),
            hay@.len() == total,
            forall|k: int| 0 <= k < j ==> hay@[at + k] == needle@[k],
        decreases needle@.len() - j,
    {
        if hay[at + j] != needle[j] {
            proof {
                let part = hay@.subrange(at as int, at + needle@.len());
                assert(part[j as int] == hay@[at + j]);
            }
            return false;
        }
        j += 1;
    }
    assert(hay@.subrange(at as int, at + needle@.len()) =~= needle@);
    true
}

/// Whether `needle` is a contiguous part of `hay`, character by character.
pub fn contains(hay: &str, needle: &str) -> (found: bool)
    ensures
        found == occurs_in(needle@, hay@),
{
    let h = to_chars(hay);
    let n = to_chars(needle);
    if n.len() > h.len() {
        return false;
    }
    let last: usize = h.len() - n.len();
    let mut at: usize = 0;
    while at <= last
        invariant
            h@ == hay@,
            n@ == needle@,
            last == h@.len() - n@.len(),
            at <= last + 1,
            forall|k: int| 0 <= k < at ==> !occurs_at(n@, h@, k),
        decreases last + 1 - at,
    {
        if matches_at(&n, &h, at) {
            return true;
        }
        if at == last {
            return false;
        }
        at += 1;
    }
    false
}

/// Whether `c` counts as white space: the value of std's
/// `char::is_whitespace`, which follows the Unicode property `White_Space`.
pub uninterp spec fn whitespace(c: char) -> bool;

/// `char::is_whitespace` depends on the character alone; its result is
/// `whitespace` of that character.
pub assume_specification[ char::is_whitespace ](c: char) -> (space: bool)
    ensures
        space == whitespace(c),
;

/// The lower-case form of a text: the value of std's `str::to_lowercase`,
/// which follows the Unicode case mappings.
pub uninterp spec fn lowercase(s: Seq<char>) -> Seq<char>;

/// `str::to_lowercase` depends on the characters of the text alone; the new
/// `String` holds `lowercase` of them.
pub assume_specification[ str::to_lowercase ](s: &str) -> (lower: String)
    ensures
        lower@ == lowercase(s@),
;

/// How many marks are set at the front of `marks`, before the first that
/// is not.
pub open spec fn leading(marks: Seq<bool>) -> nat
    decreases marks.len(),
{
    if marks.len() > 0 && marks.first() {
        1 + leading(marks.drop_first())
    } else {
        0
    }
}

/// How many marks are set at the back of `marks`, after the last that is
/// not.
pub open spec fn trailing(marks: Seq<bool>) -> nat
    decreases marks.len(),
{
    if marks.len() > 0 && marks.last() {
        1 + trailing(marks.drop_last())
    } else {
        0
    }
}

/// Where the part between the leading and the trailing set marks begins and
/// ends. Where every mark is set, the part is empty and lies at the end.
pub open spec fn inner(marks: Seq<bool>) -> (int, int) {
    if leading(marks) == marks.len() {
        (marks.len() as int, marks.len() as int)
    } else {
        (leading(marks) as int, marks.len() - trailing(marks))
    }
}

/// For each character of `s`, whether it is white space.
pub open spec fn space_marks(s: Seq<char>) -> Seq<bool> {
    s.map_values(|c: char| whitespace(c))
}

/// `s` without leading and trailing white space.
pub open spec fn trimmed(s: Seq<char>) -> Seq<char> {
    s.subrange(inner(space_marks(s)).0, inner(space_marks(s)).1)
}

/// The set marks at the front of a sequence are those up to `n`, where the
/// first `n` marks are set, and those at the front of the rest.
proof fn leading_from(marks: Seq<bool>, n: int)
    requires
        0 <= n <= marks.len(),
        forall|i: int| 0 <= i < n ==> marks[i],
    ensures
        leading(marks) == n + leading(marks.skip(n)),
    decreases n,
{
    if n == 0 {
        assert(marks.skip(0) =~= marks);
    } else {
        leading_from(marks.drop_first(), n - 1);
        assert(marks.drop_first().skip(n - 1) =~= marks.skip(n));
    }
}

/// The set marks at the back of a sequence are those from `n` on, where all
/// of these are set, and those at the back of what is before them.
proof fn trailing_from(marks: Seq<bool>, n: int)
    requires
        0 <= n <= marks.len(),
        forall|i: int| n <= i < marks.len() ==> marks[i],
    ensures
        trailing(marks) == marks.len() - n + trailing(marks.take(n)),
    decreases marks.len() - n,
{
    if n == marks.len() {
        assert(marks.take(n) =~= marks);
    } else {
        trailing_from(marks.drop_last(), n);
        assert(marks.drop_last().take(n) =~= marks.take(n));
    }
}

/// The leading set marks end at the first mark that is not set.
proof fn leading_stops(marks: Seq<bool>)
    ensures
        leading(marks) <= marks.len(),
        forall|i: int| 0 <= i < leading(marks) ==> marks[i],
        leading(marks) < marks.len() ==> !marks[leading(marks) as int],
    decreases marks.len(),
{
    if marks.len() > 0 && marks.first() {
        let rest = marks.drop_first();
        leading_stops(rest);
        assert forall|i: int| 0 <= i < leading(marks) implies marks[i] by {
            if i > 0 {
                assert(rest[i - 1] == marks[i]);
            }
        }
        if leading(marks) < marks.len() {
            assert(rest[leading(rest) as int] == marks[leading(marks) as int]);
        }
    }
}

/// The trailing set marks begin after the last mark that is not set.
proof fn trailing_stops(marks: Seq<bool>)
    ensures
        trailing(marks) <= marks.len(),
        forall|i: int| marks.len() - trailing(marks) <= i < marks.len() ==> marks[i],
        trailing(marks) < marks.len() ==> !marks[marks.len() - trailing(marks) - 1],
    decreases marks.len(),
{
    if marks.len() > 0 && marks.last() {
        let rest = marks.drop_last();
        trailing_stops(rest);
        assert forall|i: int| marks.len() - trailing(marks) <= i < marks.len() implies marks[i] by {
            if i < marks.len() - 1 {
                assert(rest[i] == marks[i]);
            }
        }
        if trailing(marks) < marks.len() {
            assert(rest[rest.len() - trailing(rest) - 1] == marks[marks.len() - trailing(marks)
                - 1]);
        }
    }
}

/// Trimming drops white space only, and as much of it as there is at
/// either end: what is left neither begins nor ends with white space.
pub proof fn trimmed_is_bare(s: Seq<char>)
    ensures
        0 <= inner(space_marks(s)).0 <= inner(space_marks(s)).1 <= s.len(),
        forall|i: int| 0 <= i < inner(space_marks(s)).0 ==> whitespace(s[i]),
        forall|i: int| inner(space_marks(s)).1 <= i < s.len() ==> whitespace(s[i]),
        trimmed(s).len() > 0 ==> !whitespace(trimmed(s).first()) && !whitespace(
            trimmed(s).last(),
        ),
{
    let marks = space_marks(s);
    leading_stops(marks);
    trailing_stops(marks);
    assert forall|i: int| 0 <= i < inner(marks).0 implies whitespace(s[i]) by {
        assert(marks[i]);
    }
    assert forall|i: int| inner(marks).1 <= i < s.len() implies whitespace(s[i]) by {
        assert(marks[i]);
    }
}

/// Finds the part between the leading and the trailing set marks.
pub fn inner_span(marks: &Vec<bool>) -> (span: (usize, usize))
    ensures
        span.0 == inner(marks@).0,
        span.1 == inner(marks@).1,
        span.0 <= span.1 <= marks@.len(),
{
    let len: usize = marks.len();
    let mut start: usize = 0;
    while start < len && marks[start]
        invariant
            len == marks@.len(),
            start <= len,
            forall|i: int| 0 <= i < start ==> marks@[i],
        decreases len - start,
    {
        start += 1;
    }
    proof {
        leading_from(marks@, start as int);
    }
    if start == len {
        return (len, len);
    }
    let mut end: usize = len;
    while marks[end - 1]
        invariant
            len == marks@.len(),
            start < end <= len,
            !marks@[start as int],
            forall|i: int| end <= i < len ==> marks@[i],
        decreases end,
    {
        end -= 1;
    }
    proof {
        trailing_from(marks@, end as int);
    }
    (start, end)
}

/// The part of `s` between its leading and its trailing white space.
pub fn trim(s: &str) -> (kept: &str)
    ensures
        kept@ == trimmed(s@),
{
    let chars = to_chars(s);
    let mut marks: Vec<bool> = Vec::new();
    let mut i: usize = 0;
    while i < chars.len()
        invariant
            chars@ == s@,
            i <= chars@.len(),
            marks@ == space_marks(s@.take(i as int)),
        decreases chars@.len() - i,
    {
        marks.push(chars[i].is_whitespace());
        assert(s@.take(i + 1) =~= s@.take(i as int).push(s@[i as int]));
        assert(marks@ =~= space_marks(s@.take(i + 1)));
        i += 1;
    }
    assert(s@.take(i as int) =~= s@);
    let span = inner_span(&marks);
    s.substring_char(span.0, span.1)
}

/// The character that writes the digit `d`, for `d` below ten.
pub open spec fn digit_char(d: nat) -> char {
    if d == 0 {
        '0'
    } else if d == 1 {
        '1'
    } else if d == 2 {
        '2'
    } else if d == 3 {
        '3'
    } else if d == 4 {
        '4'
    } else if d == 5 {
        '5'
    } else if d == 6 {
        '6'
    } else if d == 7 {
        '7'
    } else if d == 8 {
        '8'
    } else {
        '9'
    }
}

/// `n` written in decimal, without sign or leading zeros.
pub open spec fn decimal(n: nat) -> Seq<char>
    decreases n,
{
    if n < 10 {
        seq![digit_char(n)]
    } else {
        decimal(n / 10).push(digit_char(n % 10))
    }
}

/// The one-character text of a digit.
fn digit_text(d: u64) -> (text: &'static str)
    requires
        d < 10,
    ensures
        text@ == seq![digit_char(d as nat)],
{
    proof {
        reveal_strlit("0");
        reveal_strlit("1");
        reveal_strlit("2");
        reveal_strlit("3");
        reveal_strlit("4");
        reveal_strlit("5");
        reveal_strlit("6");
        reveal_strlit("7");
        reveal_strlit("8");
        reveal_strlit("9");
    }
    let text = match d {
        0 => "0",
        1 => "1",
        2 => "2",
        3 => "3",
        4 => "4",
        5 => "5",
        6 => "6",
        7 => "7",
        8 => "8",
        _ => "9",
    };
    assert(text@ =~= seq![digit_char(d as nat)]);
    text
}

/// Writes `n` in decimal.
pub fn decimal_text(n: u64) -> (text: String)
    ensures
        text@ == decimal(n as nat),
    decreases n,
{
    if n < 10 {
        String::from_str(digit_text(n))
    } else {
        let mut text = decimal_text(n / 10);
        text.append(digit_text(n % 10));
        assert(text@ =~= decimal(n as nat));
        text
    }
}

/// `c` is one of the ten decimal digits.
pub open spec fn is_digit(c: char) -> bool {
    '0' <= c && c <= '9'
}

/// The number that the digit `c` stands for.
pub open spec fn digit_value(c: char) -> nat {
    (c as u32 - '0' as u32) as nat
}

/// Every character of `s` is a decimal digit.
pub open spec fn all_digits(s: Seq<char>) -> bool {
    forall|i: int| 0 <= i < s.len() ==> is_digit(#[trigger] s[i])
}

/// The number that a sequence of decimal digits writes; 0 for none.
pub open spec fn digits_value(s: Seq<char>) -> nat
    decreases s.len(),
{
    if s.len() == 0 {
        0
    } else {
        digits_value(s.drop_last()) * 10 + digit_value(s.last())
    }
}

/// `s` without one leading plus sign.
pub open spec fn unsigned_part(s: Seq<char>) -> Seq<char> {
    if s.len() > 0 && s[0] == '+' {
        s.subrange(1, s.len() as int)
    } else {
        s
    }
}

/// The number that `s` writes, if it is a number up to `max`: an optional
/// plus sign, then at least one decimal digit and nothing else. Leading
/// zeros are allowed; white space, a minus sign and a bare sign are not.
pub open spec fn parse_number(s: Seq<char>, max: nat) -> Option<nat> {
    let digits = unsigned_part(s);
    if digits.len() > 0 && all_digits(digits) && digits_value(digits) <= max {
        Some(digits_value(digits))
    } else {
        None
    }
}

/// A sequence of digits writes no smaller a number than any of its prefixes.
proof fn digits_value_grows(s: Seq<char>, n: int)
    requires
        0 <= n <= s.len(),
    ensures
        digits_value(s.take(n)) <= digits_value(s),
    decreases s.len() - n,
{
    if n == s.len() {
        assert(s.take(n) =~= s);
    } else {
        digits_value_grows(s, n + 1);
        assert(s.take(n + 1).drop_last() =~= s.take(n));
    }
}

/// The decimal text of a number consists of digits, at least one, and
/// writes that number.
proof fn decimal_is_digits(n: nat)
    ensures
        decimal(n).len() > 0,
        all_digits(decimal(n)),
        digits_value(decimal(n)) == n,
    decreases n,
{
    if n < 10 {
        assert(decimal(n).drop_last() =~= Seq::<char>::empty());
        assert(digits_value(decimal(n).drop_last()) == 0);
    } else {
        decimal_is_digits(n / 10);
        assert(decimal(n).drop_last() =~= decimal(n / 10));
    }
}

/// Reading the decimal text of a number gives the number back, unless it is
/// above the limit.
pub proof fn decimal_reads_back(n: nat, max: nat)
    ensures
        n <= max ==> parse_number(decimal(n), max) == Some(n),
        n > max ==> parse_number(decimal(n), max) is None,
{
    decimal_is_digits(n);
    assert(is_digit(decimal(n)[0]));
}

/// Reads a decimal number up to `max`.
pub fn read_number(s: &str, max: u64) -> (number: Option<u64>)
    ensures
        number is Some <==> parse_number(s@, max as nat) is Some,
        number is Some ==> number->0 == parse_number(s@, max as nat)->0,
{
    let chars = to_chars(s);
    let len: usize = chars.len();
    let first: usize = if len > 0 && chars[0] == '+' {
        1
    } else {
        0
    };
    let ghost digits = unsigned_part(s@);
    assert(digits =~= s@.skip(first as int));
    if first == len {
        return None;
    }
    let mut value: u64 = 0;
    let mut i: usize = first;
    while i < len
        invariant
            chars@ == s@,
            len == chars@.len(),
            first <= i <= len,
            digits == s@.skip(first as int),
            digits == unsigned_part(s@),
            all_digits(digits.take(i - first)),
            value == digits_value(digits.take(i - first)),
            value <= max,
        decreases len - i,
    {
        let c: char = chars[i];
        assert(digits[i - first] == c);
        if c < '0' || c > '9' {
            assert(!is_digit(digits[i - first]));
            return None;
        }
        let d: u64 = (c as u32 - '0' as u32) as u64;
        proof {
            assert(digits.take(i - first + 1).drop_last() =~= digits.take(i - first));
            assert(digits.take(i - first + 1).last() == c);
            digits_value_grows(digits, i - first + 1);
        }
        if d > max || value > (max - d) / 10 {
            proof {
                let so_far = digits_value(digits.take(i - first + 1));
                assert(so_far == value * 10 + d);
                assert(so_far > max) by (nonlinear_arith)
                    requires
                        so_far == value * 10 + d,
                        d > max || value > (max - d) / 10,
                ;
            }
            return None;
        }
        assert(value * 10 + d <= max) by (nonlinear_arith)
            requires
                value <= (max - d) / 10,
                d <= max,
        ;
        value = value * 10 + d;
        i += 1;
    }
    assert(digits.take(len - first) =~= digits);
    Some(value)
}

/// Reads a page count: a decimal number that fits in 32 bits.
pub fn read_pages(s: &str) -> (pages: Option<u32>)
    ensures
        pages is Some <==> parse_number(s@, u32::MAX as nat) is Some,
        pages is Some ==> pages->0 == parse_number(s@, u32::MAX as nat)->0,
{
    match read_number(s, u32::MAX as u64) {
        Some(n) => Some(n as u32),
        None => None,
    }
}

} // verus!

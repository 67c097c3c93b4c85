//! Text operations that the command protocol and the messages are built from.
//!
//! Text is modelled as `Seq<char>`, the view of `str` and `String`.

use vstd::prelude::*;

verus! {

/// The text of an optional string.
pub open spec fn optional_text(s: Option<String>) -> Option<Seq<char>> {
    match s {
        Some(text) => Some(text@),
        None => None,
    }
}

/// A result whose error is a message, with the message as a sequence.
pub open spec fn told<T>(result: Result<T, String>) -> Result<T, Seq<char>> {
    match result {
        Ok(value) => Ok(value),
        Err(message) => Err(message@),
    }
}

/// A result with text on both sides, with the text as sequences.
pub open spec fn both_told(result: Result<String, String>) -> Result<Seq<char>, Seq<char>> {
    match result {
        Ok(text) => Ok(text@),
        Err(message) => Err(message@),
    }
}

/// The characters with the Unicode property `White_Space`.
pub open spec fn is_white_space(c: char) -> bool {
    ||| '\u{9}' <= c <= '\u{d}'
    ||| c == '\u{20}'
    ||| c == '\u{85}'
    ||| c == '\u{a0}'
    ||| c == '\u{1680}'
    ||| '\u{2000}' <= c <= '\u{200a}'
    ||| c == '\u{2028}'
    ||| c == '\u{2029}'
    ||| c == '\u{202f}'
    ||| c == '\u{205f}'
    ||| c == '\u{3000}'
}

/// `s` without the white space in front.
pub open spec fn trimmed_start(s: Seq<char>) -> Seq<char>
    decreases s.len(),
{
    if s.len() > 0 && is_white_space(s.first()) {
        trimmed_start(s.drop_first())
    } else {
        s
    }
}

/// `s` without the white space at the end.
pub open spec fn trimmed_end(s: Seq<char>) -> Seq<char>
    decreases s.len(),
{
    if s.len() > 0 && is_white_space(s.last()) {
        trimmed_end(s.drop_last())
    } else {
        s
    }
}

/// `s` without the white space at both ends.
pub open spec fn trimmed(s: Seq<char>) -> Seq<char> {
    trimmed_end(trimmed_start(s))
}

/// Tells whether `c` is white space.
pub fn white_space(c: char) -> (r: bool)
    ensures
        r == is_white_space(c),
{
    ('\u{9}' <= c && c <= '\u{d}') || c == '\u{20}' || c == '\u{85}' || c == '\u{a0}' || c
        == '\u{1680}' || ('\u{2000}' <= c && c <= '\u{200a}') || c == '\u{2028}' || c
        == '\u{2029}' || c == '\u{202f}' || c == '\u{205f}' || c == '\u{3000}'
}

/// The characters of `text`, one by one.
pub fn chars_of(text: &str) -> (r: Vec<char>)
    ensures
        r@ == text@,
{
    let mut out: Vec<char> = Vec::new();
    for c in it: text.chars()
        invariant
            it.seq() == text@,
            out@ == it.seq().take(it.index() as int),
    {
        out.push(c);
    }
    out
}

/// Removes the white space at both ends of `text`.
pub fn trim(text: &str) -> (r: &str)
    ensures
        r@ == trimmed(text@),
{
    let chars: Vec<char> = chars_of(text);
    let mut start: usize = 0;
    assert(chars@.skip(0) == chars@);
    while start < chars.len() && white_space(chars[start])
        invariant
            start <= chars.len(),
            chars@ == text@,
            trimmed_start(text@) == trimmed_start(text@.skip(start as int)),
        decreases chars.len() - start,
    {
        assert(text@.skip(start as int).drop_first() == text@.skip(start + 1));
        start = start + 1;
    }
    assert(trimmed_start(text@) == text@.skip(start as int));
    let mut end: usize = chars.len();
    assert(text@.subrange(start as int, end as int) == text@.skip(start as int));
    while start < end && white_space(chars[end - 1])
        invariant
            start <= end <= chars.len(),
            chars@ == text@,
            trimmed(text@) == trimmed_end(text@.subrange(start as int, end as int)),
        decreases end - start,
    {
        assert(text@.subrange(start as int, end as int).drop_last() == text@.subrange(
            start as int,
            end - 1,
        ));
        end = end - 1;
    }
    text.substring_char(start, end)
}

/// The text behind `prefix`, where `text` starts with it.
pub fn strip_prefix<'a>(text: &'a str, prefix: &str) -> (r: Option<&'a str>)
    ensures
        match r {
            Some(rest) => text@ == prefix@ + rest@,
            None => !prefix@.is_prefix_of(text@),
        },
{
    let chars: Vec<char> = chars_of(text);
    let wanted: Vec<char> = chars_of(prefix);
    if chars.len() < wanted.len() {
        return None;
    }
    let mut i: usize = 0;
    while i < wanted.len()
        invariant
            i <= wanted.len() <= chars.len(),
            chars@ == text@,
            wanted@ == prefix@,
            forall|j: int| 0 <= j < i ==> chars@[j] == wanted@[j],
        decreases wanted.len() - i,
    {
        if chars[i] != wanted[i] {
            assert(prefix@[i as int] != text@.subrange(0, prefix@.len() as int)[i as int]);
            return None;
        }
        i = i + 1;
    }
    let rest = text.substring_char(wanted.len(), chars.len());
    assert(text@ == prefix@ + rest@);
    Some(rest)
}

/// Tells whether two texts are the same.
pub fn same_text(a: &str, b: &str) -> (r: bool)
    ensures
        r == (a@ == b@),
{
    match strip_prefix(a, b) {
        Some(rest) => {
            proof {
                if a@ == b@ {
                    assert(a@.len() == b@.len() + rest@.len());
                }
                if rest@.len() == 0 {
                    assert(b@ + rest@ == b@);
                }
            }
            rest.is_empty()
        },
        None => {
            assert(a@ == b@ ==> b@.is_prefix_of(a@));
            false
        },
    }
}

/// `a` followed by `b`.
pub fn join2(a: &str, b: &str) -> (r: String)
    ensures
        r@ == a@ + b@,
{
    let mut out: String = a.to_owned();
    out.append(b);
    out
}

/// `c` with an ASCII capital letter made small.
pub open spec fn ascii_lower_char(c: char) -> char {
    if 'A' <= c <= 'Z' {
        (c as u32 + 32) as char
    } else {
        c
    }
}

/// `s` with its ASCII capital letters made small.
pub open spec fn ascii_lower(s: Seq<char>) -> Seq<char> {
    s.map_values(|c: char| ascii_lower_char(c))
}

/// Tells whether `text` reads `small` once its ASCII capital letters are made small.
pub fn same_ignoring_case(text: &str, small: &str) -> (r: bool)
    requires
        ascii_lower(small@) == small@,
    ensures
        r == (ascii_lower(text@) == small@),
{
    let chars: Vec<char> = chars_of(text);
    let wanted: Vec<char> = chars_of(small);
    if chars.len() != wanted.len() {
        return false;
    }
    let mut i: usize = 0;
    while i < wanted.len()
        invariant
            i <= wanted.len() == chars.len(),
            chars@ == text@,
            wanted@ == small@,
            forall|j: int| 0 <= j < i ==> ascii_lower_char(chars@[j]) == wanted@[j],
        decreases wanted.len() - i,
    {
        let c: char = chars[i];
        let low: char = if 'A' <= c && c <= 'Z' {
            ((c as u8) + 32u8) as char
        } else {
            c
        };
        assert(low == ascii_lower_char(c));
        if low != wanted[i] {
            assert(ascii_lower(text@)[i as int] != small@[i as int]);
            return false;
        }
        i = i + 1;
    }
    assert(ascii_lower(text@) == small@);
    true
}

/// The decimal digit of `d`.
pub open spec fn digit(d: nat) -> char {
    if d == 0 {
        '0'
    } else if d == 1 {
        '1'
    } else if d == 2 {
        '2'
    } else if d == 3 {
        '3'
    } else if d == 4 {
        '4'
    } else if d == 5 {
        '5'
    } else if d == 6 {
        '6'
    } else if d == 7 {
        '7'
    } else if d == 8 {
        '8'
    } else {
        '9'
    }
}

/// `n` in decimal, without leading zeros.
pub open spec fn decimal(n: nat) -> Seq<char>
    decreases n,
{
    if n < 10 {
        seq![digit(n)]
    } else {
        decimal(n / 10).push(digit(n % 10))
    }
}

/// `s` with zeros put in front until it is at least `width` long.
pub open spec fn zero_padded(s: Seq<char>, width: nat) -> Seq<char> {
    if s.len() < width {
        Seq::new((width - s.len()) as nat, |i: int| '0') + s
    } else {
        s
    }
}

/// The decimal digit of `d` as text.
fn digit_text(d: u64) -> (r: &'static str)
    requires
        d < 10,
    ensures
        r@ == seq![digit(d as nat)],
{
    proof {
        reveal_strlit("0");
        reveal_strlit("1");
        reveal_strlit("2");
        reveal_strlit("3");
        reveal_strlit("4");
        reveal_strlit("5");
        reveal_strlit("6");
        reveal_strlit("7");
        reveal_strlit("8");
        reveal_strlit("9");
    }
    let r: &'static str = match d {
        0 => "0",
        1 => "1",
        2 => "2",
        3 => "3",
        4 => "4",
        5 => "5",
        6 => "6",
        7 => "7",
        8 => "8",
        _ => "9",
    };
    assert(r@ == seq![digit(d as nat)]);
    r
}

/// Writes `n` in decimal.
pub fn decimal_text(n: u64) -> (r: String)
    ensures
        r@ == decimal(n as nat),
    decreases n,
{
    if n < 10 {
        digit_text(n).to_owned()
    } else {
        let mut out: String = decimal_text(n / 10);
        out.append(digit_text(n % 10));
        out
    }
}

/// Writes `n` in decimal with zeros in front, at least `width` characters long.
pub fn padded_decimal_text(n: u64, width: usize) -> (r: String)
    ensures
        r@ == zero_padded(decimal(n as nat), width as nat),
{
    let number: String = decimal_text(n);
    let len: usize = number.as_str().unicode_len();
    if len >= width {
        return number;
    }
    let mut out: String = String::new();
    let mut i: usize = len;
    while i < width
        invariant
            len <= i <= width,
            out@ == Seq::new((i - len) as nat, |j: int| '0'),
        decreases width - i,
    {
        proof {
            reveal_strlit("0");
        }
        out.append("0");
        i = i + 1;
    }
    out.append(number.as_str());
    out
}

/// The value of a decimal digit.
pub open spec fn digit_value(c: char) -> int {
    c as int - '0' as int
}

/// Nothing but decimal digits, and at least one.
pub open spec fn is_number(s: Seq<char>) -> bool {
    s.len() > 0 && forall|i: int| 0 <= i < s.len() ==> '0' <= #[trigger] s[i] <= '9'
}

/// The number that digits stand for, each worth ten times the one behind it.
pub open spec fn number_in(s: Seq<char>) -> int
    decreases s.len(),
{
    if s.len() == 0 {
        0
    } else {
        10 * number_in(s.drop_last()) + digit_value(s.last())
    }
}

/// Zeros in front of a number do not change it.
proof fn zeros_in_front_do_not_count(zeros: nat, s: Seq<char>)
    ensures
        number_in(Seq::new(zeros, |i: int| '0') + s) == number_in(s),
    decreases s.len() + zeros,
{
    let z = Seq::new(zeros, |i: int| '0');
    if s.len() > 0 {
        zeros_in_front_do_not_count(zeros, s.drop_last());
        assert((z + s).drop_last() =~= z + s.drop_last());
        assert((z + s).last() == s.last());
    } else if zeros > 0 {
        let fewer = Seq::new((zeros - 1) as nat, |i: int| '0');
        zeros_in_front_do_not_count((zeros - 1) as nat, s);
        assert((z + s).drop_last() =~= fewer + s);
        assert((z + s).last() == '0');
    }
}

/// What is written of a number is made of digits, has no zero in front of others and
/// reads back as that number.
pub(crate) proof fn decimals_read_back(n: nat)
    ensures
        is_number(decimal(n)),
        number_in(decimal(n)) == n,
        n > 0 ==> decimal(n)[0] != '0',
        decimal(n).len() > 1 ==> decimal(n)[0] != '0',
    decreases n,
{
    if n < 10 {
        assert(decimal(n).drop_last() =~= Seq::empty());
        assert(number_in(decimal(n).drop_last()) == 0);
        assert(decimal(n).last() == digit(n));
    } else {
        decimals_read_back(n / 10);
        assert(decimal(n).drop_last() =~= decimal(n / 10));
        assert(decimal(n).last() == digit(n % 10));
        assert(decimal(n)[0] == decimal(n / 10)[0]);
        if n / 10 < 10 {
            assert(decimal(n / 10)[0] == digit(n / 10));
        }
    }
}

/// A filled number reads back as that number.
pub(crate) proof fn filled_decimals_read_back(n: nat, width: nat)
    ensures
        is_number(zero_padded(decimal(n), width)),
        number_in(zero_padded(decimal(n), width)) == n,
        zero_padded(decimal(n), width).len() >= width,
        zero_padded(decimal(n), width).len() > width && zero_padded(decimal(n), width).len() > 1
            ==> zero_padded(decimal(n), width)[0] != '0',
{
    decimals_read_back(n);
    let s = decimal(n);
    if s.len() < width {
        zeros_in_front_do_not_count((width - s.len()) as nat, s);
    }
}

/// A number that is written in decimal is made of digits, has no zero in front of
/// others and reads back as the number.
pub proof fn numbers_read_back(n: u64, text: String)
    requires
        call_ensures(decimal_text, (n,), text),
    ensures
        is_number(text@),
        number_in(text@) == n,
        text@.len() > 1 ==> text@[0] != '0',
{
    decimals_read_back(n as nat);
}

/// A number that is filled up with zeros is made of digits, reads back as the number,
/// is as long as wanted and longer only where the number needs it.
pub proof fn filled_numbers_read_back(n: u64, width: usize, text: String)
    requires
        call_ensures(padded_decimal_text, (n, width), text),
    ensures
        is_number(text@),
        number_in(text@) == n,
        text@.len() >= width,
        text@.len() > width && text@.len() > 1 ==> text@[0] != '0',
{
    filled_decimals_read_back(n as nat, width as nat);
}

/// The code points of white space.
pub open spec fn white_space_points() -> Seq<u32> {
    seq![
        0x9u32,
        0xa,
        0xb,
        0xc,
        0xd,
        0x20,
        0x85,
        0xa0,
        0x1680,
        0x2000,
        0x2001,
        0x2002,
        0x2003,
        0x2004,
        0x2005,
        0x2006,
        0x2007,
        0x2008,
        0x2009,
        0x200a,
        0x2028,
        0x2029,
        0x202f,
        0x205f,
        0x3000,
    ]
}

/// White space is the twenty-five characters of that Unicode property.
pub proof fn white_space_has_its_points(c: char, is_white: bool)
    requires
        call_ensures(white_space, (c,), is_white),
    ensures
        is_white == white_space_points().contains(c as u32),
{
    white_space_by_points();
}

/// `trimmed_start` takes white space away from the front, and as much as there is.
proof fn trimmed_start_is_a_tail(s: Seq<char>) -> (start: int)
    ensures
        0 <= start <= s.len(),
        trimmed_start(s) == s.skip(start),
        forall|i: int| 0 <= i < start ==> is_white_space(#[trigger] s[i]),
        start < s.len() ==> !is_white_space(s[start]),
    decreases s.len(),
{
    if s.len() > 0 && is_white_space(s.first()) {
        let rest = s.drop_first();
        let start = trimmed_start_is_a_tail(rest);
        assert(rest.skip(start) =~= s.skip(start + 1));
        assert forall|i: int| 0 <= i < start + 1 implies is_white_space(#[trigger] s[i]) by {
            if i > 0 {
                assert(rest[i - 1] == s[i]);
            }
        }
        if start < rest.len() {
            assert(rest[start] == s[start + 1]);
        }
        start + 1
    } else {
        assert(s.skip(0) =~= s);
        0
    }
}

/// `trimmed_end` takes white space away from the end, and as much as there is.
proof fn trimmed_end_is_a_head(s: Seq<char>) -> (end: int)
    ensures
        0 <= end <= s.len(),
        trimmed_end(s) == s.take(end),
        forall|i: int| end <= i < s.len() ==> is_white_space(#[trigger] s[i]),
        end > 0 ==> !is_white_space(s[end - 1]),
    decreases s.len(),
{
    if s.len() > 0 && is_white_space(s.last()) {
        let front = s.drop_last();
        let end = trimmed_end_is_a_head(front);
        assert(front.take(end) =~= s.take(end));
        assert forall|i: int| end <= i < s.len() implies is_white_space(#[trigger] s[i]) by {
            if i < front.len() {
                assert(front[i] == s[i]);
            }
        }
        if end > 0 {
            assert(front[end - 1] == s[end - 1]);
        }
        end
    } else {
        assert(s.take(s.len() as int) =~= s);
        s.len() as int
    }
}

/// `whole` is `inner` with white space alone in front of it and behind it, and `inner`
/// neither begins nor ends in white space.
pub open spec fn is_inner_text(whole: Seq<char>, inner: Seq<char>, start: int) -> bool {
    &&& 0 <= start && start + inner.len() <= whole.len()
    &&& inner =~= whole.subrange(start, start + inner.len())
    &&& forall|i: int|
        0 <= i < start || start + inner.len() <= i < whole.len()
            ==> white_space_points().contains(#[trigger] whole[i] as u32)
    &&& inner.len() > 0 ==> !white_space_points().contains(inner.first() as u32)
    &&& inner.len() > 0 ==> !white_space_points().contains(inner.last() as u32)
}

/// White space is what has one of its code points.
pub(crate) proof fn white_space_by_points()
    ensures
        forall|c: char| #[trigger]
            is_white_space(c) == white_space_points().contains(c as u32),
{
    assert forall|c: char| #[trigger]
        is_white_space(c) == white_space_points().contains(c as u32) by {
        white_space_point(c);
    }
}

/// A character is white space where its code point is one of those.
proof fn white_space_point(c: char)
    ensures
        is_white_space(c) == white_space_points().contains(c as u32),
{
    let points = white_space_points();
    let p = c as u32;
    if is_white_space(c) {
        let i: int = if p <= 0xd {
            p - 0x9
        } else if p == 0x20 {
            5
        } else if p == 0x85 {
            6
        } else if p == 0xa0 {
            7
        } else if p == 0x1680 {
            8
        } else if p <= 0x200a {
            9 + (p - 0x2000)
        } else if p == 0x2028 {
            20
        } else if p == 0x2029 {
            21
        } else if p == 0x202f {
            22
        } else if p == 0x205f {
            23
        } else {
            24
        };
        assert(points[i] == p);
    } else if points.contains(p) {
        let i = choose|i: int| 0 <= i < points.len() && points[i] == p;
        assert(0 <= i < 25);
    }
}

/// Trimming leaves what lies between the white space at both ends.
pub(crate) proof fn trimmed_is_the_inner_text(s: Seq<char>)
    ensures
        exists|start: int| is_inner_text(s, trimmed(s), start),
{
    white_space_by_points();
    let start = trimmed_start_is_a_tail(s);
    let rest = s.skip(start);
    let end = trimmed_end_is_a_head(rest);
    let inner = trimmed(s);
    assert(inner =~= s.subrange(start, start + end));
    assert forall|i: int|
        0 <= i < start || start + inner.len() <= i < s.len() implies white_space_points().contains(
        #[trigger] s[i] as u32,
    ) by {
        if i >= start {
            assert(rest[i - start] == s[i]);
        }
        assert(is_white_space(s[i]));
    }
    if inner.len() > 0 {
        assert(inner.first() == s[start]);
        assert(inner.last() == rest[end - 1]);
    }
    assert(is_inner_text(s, inner, start));
}

/// Trimming takes away the white space at both ends, all of it and nothing else.
pub proof fn trimming_takes_the_white_space_around(text: &str, inner: &str)
    requires
        call_ensures(trim, (text,), inner),
    ensures
        exists|start: int| is_inner_text(text@, inner@, start),
{
    trimmed_is_the_inner_text(text@);
}

/// Two texts are the same but for capital letters exactly where they are as long and
/// each character is the same, or a capital whose small letter is wanted.
pub proof fn case_alone_is_ignored(text: &str, small: &str, same: bool)
    requires
        call_ensures(same_ignoring_case, (text, small), same),
        forall|i: int| 0 <= i < small@.len() ==> !('A' <= #[trigger] small@[i] <= 'Z'),
    ensures
        same == (text@.len() == small@.len() && forall|i: int|
            0 <= i < small@.len() ==> (#[trigger] text@[i] == small@[i] || ('a' <= small@[i] <= 'z'
                && text@[i] as int + 32 == small@[i] as int))),
{
    let low = ascii_lower(text@);
    assert(low.len() == text@.len());
    assert forall|i: int| 0 <= i < low.len() implies #[trigger] low[i] == ascii_lower_char(
        text@[i],
    ) by {}
    if same {
        assert forall|i: int| 0 <= i < small@.len() implies (#[trigger] text@[i] == small@[i] || (
        'a' <= small@[i] <= 'z' && text@[i] as int + 32 == small@[i] as int)) by {
            assert(low[i] == small@[i]);
        }
    } else if text@.len() == small@.len() && forall|i: int|
        0 <= i < small@.len() ==> (#[trigger] text@[i] == small@[i] || ('a' <= small@[i] <= 'z'
            && text@[i] as int + 32 == small@[i] as int)) {
        assert forall|i: int| 0 <= i < low.len() implies #[trigger] low[i] == small@[i] by {
            assert(text@[i] == small@[i] || ('a' <= small@[i] <= 'z' && text@[i] as int + 32
                == small@[i] as int));
        }
        assert(low =~= small@);
    }
}

/// What stands behind a prefix is got back, and nothing where the text does not start
/// with it.
pub proof fn prefixes_come_off_whole(text: &str, prefix: &str, rest: Option<&str>, tail: Seq<char>)
    requires
        call_ensures(strip_prefix, (text, prefix), rest),
    ensures
        text@ == prefix@ + tail ==> rest is Some && rest->0@ == tail,
        rest is Some ==> text@.len() == prefix@.len() + rest->0@.len() && forall|i: int|
            0 <= i < prefix@.len() ==> text@[i] == #[trigger] prefix@[i],
{
    if text@ == prefix@ + tail {
        assert(prefix@ =~= text@.subrange(0, prefix@.len() as int));
        assert(rest is Some);
        assert(rest->0@ =~= text@.skip(prefix@.len() as int));
        assert(tail =~= text@.skip(prefix@.len() as int));
    }
}

/// Two texts are the same exactly where each character is.
pub proof fn same_texts_have_the_same_characters(a: &str, b: &str, same: bool)
    requires
        call_ensures(same_text, (a, b), same),
    ensures
        same == (a@.len() == b@.len() && forall|i: int|
            0 <= i < a@.len() ==> #[trigger] a@[i] == b@[i]),
{
    if a@.len() == b@.len() && forall|i: int| 0 <= i < a@.len() ==> #[trigger] a@[i] == b@[i] {
        assert(a@ =~= b@);
    }
}

/// One text follows the other, with nothing lost, added or changed.
pub proof fn joined_texts_are_both_there(a: &str, b: &str, joined: String)
    requires
        call_ensures(join2, (a, b), joined),
    ensures
        joined@.len() == a@.len() + b@.len(),
        forall|i: int| 0 <= i < a@.len() ==> joined@[i] == #[trigger] a@[i],
        forall|i: int| 0 <= i < b@.len() ==> joined@[a@.len() + i] == #[trigger] b@[i],
{
}

} // verus!

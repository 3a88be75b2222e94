//! Small rules about text: decimal numbers, trailing slashes, letter case,
//! separated fields.

use vstd::prelude::*;

verus! {

/// Whether `c` is a decimal digit.
pub open spec fn is_digit(c: char) -> bool {
    '0' <= c <= '9'
}

/// The decimal digit that stands for `value`.
pub open spec fn digit_char(value: int) -> char {
    ('0' as int + value) as char
}

/// The number that a row of decimal digits stands for.
pub open spec fn decimal_value(digits: Seq<char>) -> int
    decreases digits.len(),
{
    if digits.len() == 0 {
        0
    } else {
        decimal_value(digits.drop_last()) * 10 + (digits.last() as int - '0' as int)
    }
}

/// A number below a million as six decimal digits, with leading zeros.
pub open spec fn six_digits(value: u32) -> Seq<char> {
    seq![
        digit_char((value / 100000) as int % 10),
        digit_char((value / 10000) as int % 10),
        digit_char((value / 1000) as int % 10),
        digit_char((value / 100) as int % 10),
        digit_char((value / 10) as int % 10),
        digit_char(value as int % 10),
    ]
}

/// Whether `text` holds digits only, and at least one.
pub open spec fn is_decimal(text: Seq<char>) -> bool {
    &&& text.len() > 0
    &&& forall|i: int| 0 <= i < text.len() ==> is_digit(#[trigger] text[i])
}

/// The TCP port that `text` names: digits, perhaps after a plus sign, whose
/// value fits in sixteen bits.
pub open spec fn port_number(text: Seq<char>) -> Option<u16> {
    let digits = if text.len() > 0 && text[0] == '+' {
        text.skip(1)
    } else {
        text
    };
    if is_decimal(digits) && decimal_value(digits) <= u16::MAX {
        Some(decimal_value(digits) as u16)
    } else {
        None
    }
}

/// `text` without the slashes at its end.
pub open spec fn without_trailing_slashes(text: Seq<char>) -> Seq<char>
    decreases text.len(),
{
    if text.len() > 0 && text.last() == '/' {
        without_trailing_slashes(text.drop_last())
    } else {
        text
    }
}

/// The lower-case form of an ASCII letter; any other character is kept.
pub open spec fn ascii_lower(c: char) -> char {
    if 'A' <= c <= 'Z' {
        (c as int + 32) as char
    } else {
        c
    }
}

/// Whether two texts agree up to the case of ASCII letters.
pub open spec fn equal_ignoring_case(a: Seq<char>, b: Seq<char>) -> bool {
    &&& a.len() == b.len()
    &&& forall|i: int| 0 <= i < a.len() ==> ascii_lower(#[trigger] a[i]) == ascii_lower(b[i])
}

/// The parts of `text` between the characters `separator`; one more than there
/// are such characters.
pub open spec fn fields_of(text: Seq<char>, separator: char) -> Seq<Seq<char>>
    decreases text.len(),
{
    if text.len() == 0 {
        seq![Seq::empty()]
    } else {
        let before = fields_of(text.drop_last(), separator);
        if text.last() == separator {
            before.push(Seq::empty())
        } else {
            before.update(before.len() - 1, before.last().push(text.last()))
        }
    }
}

/// The characters of `text`.
pub(crate) fn chars_of(text: &str) -> (chars: Vec<char>)
    ensures
        chars@ == text@,
{
    let count: usize = text.unicode_len();
    let mut chars: Vec<char> = Vec::new();
    let mut i: usize = 0;
    while i < count
        invariant
            i <= count,
            count == text@.len(),
            chars@ == text@.take(i as int),
        decreases count - i,
    {
        chars.push(text.get_char(i));
        assert(text@.take(i + 1) == text@.take(i as int).push(text@[i as int]));
        i = i + 1;
    }
    assert(text@.take(count as int) == text@);
    chars
}

/// The decimal digit that stands for `value`, as text.
fn digit_text(value: u32) -> (digit: &'static str)
    requires
        value < 10,
    ensures
        digit@ == seq![digit_char(value as int)],
{
    proof {
        reveal_strlit("0");
        reveal_strlit("1");
        reveal_strlit("2");
        reveal_strlit("3");
        reveal_strlit("4");
        reveal_strlit("5");
        reveal_strlit("6");
        reveal_strlit("7");
        reveal_strlit("8");
        reveal_strlit("9");
    }
    match value {
        0 => "0",
        1 => "1",
        2 => "2",
        3 => "3",
        4 => "4",
        5 => "5",
        6 => "6",
        7 => "7",
        8 => "8",
        _ => "9",
    }
}

/// Writes a number below ten.
pub fn write_digit(value: u32) -> (text: String)
    requires
        value < 10,
    ensures
        text@ == seq![digit_char(value as int)],
{
    digit_text(value).to_owned()
}

/// Writes a number below a million with six digits.
pub fn write_six_digits(value: u32) -> (text: String)
    requires
        value < 1000000,
    ensures
        text@ == six_digits(value),
{
    let mut text = String::new();
    text.append(digit_text(value / 100000 % 10));
    text.append(digit_text(value / 10000 % 10));
    text.append(digit_text(value / 1000 % 10));
    text.append(digit_text(value / 100 % 10));
    text.append(digit_text(value / 10 % 10));
    text.append(digit_text(value % 10));
    text
}

/// Reads a TCP port.
pub fn parse_port(text: &str) -> (port: Option<u16>)
    ensures
        port == port_number(text@),
{
    let chars = chars_of(text);
    let first: usize = if chars.len() > 0 && chars[0] == '+' {
        1
    } else {
        0
    };
    let ghost digits = chars@.skip(first as int);
    assert(first == 0 ==> digits == text@);
    if first == chars.len() {
        return None;
    }
    let mut value: u32 = 0;
    let mut i: usize = first;
    while i < chars.len()
        invariant
            first <= i <= chars.len(),
            chars@ == text@,
            first == (if text@.len() > 0 && text@[0] == '+' {
                1int
            } else {
                0
            }),
            digits == chars@.skip(first as int),
            forall|j: int| 0 <= j < i - first ==> is_digit(#[trigger] digits[j]),
            value == (if decimal_value(digits.take(i - first)) < 65536 {
                decimal_value(digits.take(i - first))
            } else {
                65536
            }),
            decimal_value(digits.take(i - first)) >= 0,
        decreases chars.len() - i,
    {
        let c: char = chars[i];
        assert(c == digits[i - first]);
        if c < '0' || c > '9' {
            assert(first == 0 ==> digits == text@);
            assert(!is_decimal(digits));
            return None;
        }
        let digit: u32 = c as u32 - '0' as u32;
        proof {
            let next = digits.take(i - first + 1);
            assert(next.drop_last() == digits.take(i - first));
            assert(next.last() == c);
        }
        let moved: u32 = value * 10 + digit;
        value = if moved < 65536 {
            moved
        } else {
            65536
        };
        i = i + 1;
    }
    assert(digits.take(chars.len() - first) == digits);
    if value < 65536 {
        Some(value as u16)
    } else {
        None
    }
}

/// Drops the slashes at the end of `text`.
pub fn trim_trailing_slashes(text: &str) -> (trimmed: String)
    ensures
        trimmed@ == without_trailing_slashes(text@),
{
    let mut end: usize = text.unicode_len();
    assert(text@.take(end as int) == text@);
    while end > 0 && text.get_char(end - 1) == '/'
        invariant
            end <= text@.len(),
            without_trailing_slashes(text@.take(end as int)) == without_trailing_slashes(text@),
        decreases end,
    {
        assert(text@.take(end as int).drop_last() == text@.take(end - 1));
        end = end - 1;
    }
    assert(text@.take(end as int) == text@.subrange(0, end as int));
    text.substring_char(0, end).to_owned()
}

/// The lower-case form of an ASCII letter; any other character is kept.
fn lower(c: char) -> (l: char)
    ensures
        l == ascii_lower(c),
{
    if 'A' <= c && c <= 'Z' {
        (c as u8 + 32) as char
    } else {
        c
    }
}

/// Whether two texts agree up to the case of ASCII letters.
pub fn same_ignoring_case(left: &str, right: &str) -> (same: bool)
    ensures
        same == equal_ignoring_case(left@, right@),
{
    let a = chars_of(left);
    let b = chars_of(right);
    if a.len() != b.len() {
        return false;
    }
    let mut i: usize = 0;
    while i < a.len()
        invariant
            i <= a.len(),
            a.len() == b.len(),
            a@ == left@,
            b@ == right@,
            forall|j: int| 0 <= j < i ==> ascii_lower(#[trigger] a@[j]) == ascii_lower(b@[j]),
        decreases a.len() - i,
    {
        if lower(a[i]) != lower(b[i]) {
            return false;
        }
        i = i + 1;
    }
    true
}

/// Cuts a text up at the characters `separator`.
pub(crate) fn split_fields(text: &Vec<char>, separator: char) -> (fields: Vec<Vec<char>>)
    ensures
        fields@.map_values(|field: Vec<char>| field@) == fields_of(text@, separator),
{
    let ghost shown = |field: Vec<char>| field@;
    let mut fields: Vec<Vec<char>> = Vec::new();
    let mut field: Vec<char> = Vec::new();
    let mut i: usize = 0;
    assert(text@.take(0) =~= Seq::<char>::empty());
    assert(fields@.map_values(shown).push(field@) =~= fields_of(text@.take(0), separator));
    while i < text.len()
        invariant
            i <= text.len(),
            shown == (|field: Vec<char>| field@),
            fields@.map_values(shown).push(field@) == fields_of(text@.take(i as int), separator),
        decreases text.len() - i,
    {
        let c: char = text[i];
        let ghost before = fields@.map_values(shown);
        let ghost known = field@;
        assert(text@.take(i + 1).drop_last() =~= text@.take(i as int));
        assert(text@.take(i + 1).last() == c);
        if c == separator {
            fields.push(field);
            field = Vec::new();
            assert(fields@.map_values(shown) =~= before.push(known));
            assert(field@ =~= Seq::<char>::empty());
        } else {
            field.push(c);
            assert(before.push(known).update(before.len() as int, known.push(c)) =~= before.push(
                known.push(c),
            ));
        }
        i = i + 1;
    }
    assert(text@.take(text@.len() as int) =~= text@);
    let ghost before = fields@.map_values(shown);
    let ghost known = field@;
    fields.push(field);
    assert(fields@.map_values(shown) =~= before.push(known));
    fields
}

/// Six digits read as a number give the number back, so no two numbers share
/// their six digits.
pub proof fn six_digits_give_the_number_back(value: u32)
    requires
        value < 1000000,
    ensures
        decimal_value(six_digits(value)) == value,
        six_digits(value).len() == 6,
        forall|i: int| 0 <= i < 6 ==> is_digit(#[trigger] six_digits(value)[i]),
{
    let s = six_digits(value);
    let v = value as int;
    assert(s.take(0) =~= Seq::<char>::empty());
    assert(decimal_value(s.take(0)) == 0);
    decimal_value_of_next(s, 0, 0, v / 100000);
    decimal_value_of_next(s, 1, v / 100000, v / 10000);
    decimal_value_of_next(s, 2, v / 10000, v / 1000);
    decimal_value_of_next(s, 3, v / 1000, v / 100);
    decimal_value_of_next(s, 4, v / 100, v / 10);
    decimal_value_of_next(s, 5, v / 10, v);
    assert(s.take(6) =~= s);
}

/// One more digit makes the tenfold of a number and the digit.
proof fn decimal_value_of_next(digits: Seq<char>, count: int, value: int, next: int)
    requires
        0 <= count < digits.len(),
        decimal_value(digits.take(count)) == value,
        next == value * 10 + (digits[count] as int - '0' as int),
    ensures
        decimal_value(digits.take(count + 1)) == next,
{
    assert(digits.take(count + 1).drop_last() =~= digits.take(count));
}

/// Slashes put at the end of a text make no difference once they are dropped.
pub proof fn trailing_slashes_do_not_matter(text: Seq<char>)
    ensures
        without_trailing_slashes(text.push('/')) == without_trailing_slashes(text),
        without_trailing_slashes(without_trailing_slashes(text)) == without_trailing_slashes(text),
    decreases text.len(),
{
    assert(text.push('/').drop_last() == text);
    if text.len() > 0 && text.last() == '/' {
        trailing_slashes_do_not_matter(text.drop_last());
    }
}

} // verus!

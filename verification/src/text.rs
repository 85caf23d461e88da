//! Text as sequences of characters: numbers in decimal and hexadecimal, separated fields,
//! prefixes, substrings and surrounding white space.

use vstd::arithmetic::power::pow;
use vstd::prelude::*;

verus! {

/// `String::push` of the standard library: the character is appended to the text.
pub assume_specification[ String::push ](text: &mut String, character: char)
    ensures
        final(text)@ == old(text)@.push(character),
;

/// The decimal digit for a number below ten.
pub open spec fn digit(value: int) -> char {
    (48 + value) as char
}

/// The lower-case hexadecimal digit for a number below sixteen.
pub open spec fn hex_digit(value: int) -> char {
    if value < 10 {
        (48 + value) as char
    } else {
        (87 + value) as char
    }
}

/// A natural number in decimal, without leading zeros.
pub open spec fn decimal(value: nat) -> Seq<char>
    decreases value,
{
    if value < 10 {
        seq![digit(value as int)]
    } else {
        decimal(value / 10).push(digit((value % 10) as int))
    }
}

/// An integer in decimal, with a sign if it is negative.
pub open spec fn signed_decimal(value: int) -> Seq<char> {
    if value < 0 {
        seq!['-'] + decimal((-value) as nat)
    } else {
        decimal(value as nat)
    }
}

/// The last `width` hexadecimal digits of a natural number.
pub open spec fn hexadecimal(value: nat, width: nat) -> Seq<char>
    decreases width,
{
    if width == 0 {
        seq![]
    } else {
        hexadecimal(value / 16, (width - 1) as nat).push(hex_digit((value % 16) as int))
    }
}

/// `true` or `false`.
pub open spec fn truth(value: bool) -> Seq<char> {
    if value {
        "true"@
    } else {
        "false"@
    }
}

/// Appends a number in decimal.
pub fn push_decimal(text: &mut String, value: u128)
    ensures
        final(text)@ == old(text)@ + decimal(value as nat),
    decreases value,
{
    if value >= 10 {
        push_decimal(text, value / 10);
    }
    let last: u8 = (value % 10) as u8;
    text.push((48 + last) as char);
    assert(text@ =~= old(text)@ + decimal(value as nat));
}

/// Appends an integer in decimal, with a sign if it is negative.
pub fn push_signed_decimal(text: &mut String, value: i32)
    ensures
        final(text)@ == old(text)@ + signed_decimal(value as int),
{
    let magnitude: i64 = value as i64;
    if magnitude < 0 {
        text.push('-');
        push_decimal(text, (-magnitude) as u128);
    } else {
        push_decimal(text, magnitude as u128);
    }
    assert(text@ =~= old(text)@ + signed_decimal(value as int));
}

/// Appends the last `width` hexadecimal digits of a number.
pub fn push_hexadecimal(text: &mut String, value: u32, width: u32)
    ensures
        final(text)@ == old(text)@ + hexadecimal(value as nat, width as nat),
    decreases width,
{
    if width > 0 {
        push_hexadecimal(text, value / 16, width - 1);
        let last: u8 = (value % 16) as u8;
        if last < 10 {
            text.push((48 + last) as char);
        } else {
            text.push((87 + last) as char);
        }
    }
    assert(text@ =~= old(text)@ + hexadecimal(value as nat, width as nat));
}

/// Appends `true` or `false`.
pub fn push_truth(text: &mut String, value: bool)
    ensures
        final(text)@ == old(text)@ + truth(value),
{
    if value {
        text.append("true");
    } else {
        text.append("false");
    }
}

/// The Unicode code point of a character.
pub fn code_point(character: char) -> (code: u32)
    ensures
        code as int == character as int,
{
    character as u32
}

/// The characters of a text, one by one.
pub fn characters(text: &str) -> (result: Vec<char>)
    ensures
        result@ == text@,
{
    let mut result: Vec<char> = Vec::new();
    for character in iter: text.chars()
        invariant
            iter.seq() == text@,
            result@ == text@.take(iter.index() as int),
    {
        result.push(character);
        assert(text@.take(iter.index() as int + 1) =~= text@.take(iter.index() as int).push(
            character,
        ));
    }
    assert(text@.take(text@.len() as int) =~= text@);
    result
}


/// The parts of a text between the separators, in order. There is one more part than there are
/// separators; a part may be empty.
pub open spec fn fields(text: Seq<char>, separator: char) -> Seq<Seq<char>>
    decreases text.len(),
{
    if text.len() == 0 {
        seq![Seq::<char>::empty()]
    } else {
        let before = fields(text.drop_last(), separator);
        if text.last() == separator {
            before.push(Seq::<char>::empty())
        } else {
            before.update(before.len() - 1, before.last().push(text.last()))
        }
    }
}

/// The sequences of characters that a list of vectors holds.
pub open spec fn contents(list: Seq<Vec<char>>) -> Seq<Seq<char>> {
    list.map_values(|part: Vec<char>| part@)
}

pub proof fn fields_are_never_none(text: Seq<char>, separator: char)
    ensures
        fields(text, separator).len() > 0,
    decreases text.len(),
{
    if text.len() > 0 {
        fields_are_never_none(text.drop_last(), separator);
    }
}

/// Splits a text at every separator.
pub fn split(text: &str, separator: char) -> (parts: Vec<Vec<char>>)
    ensures
        contents(parts@) == fields(text@, separator),
{
    let mut parts: Vec<Vec<char>> = Vec::new();
    let mut current: Vec<char> = Vec::new();
    assert(contents(parts@).push(current@) =~= fields(text@.take(0), separator));
    for character in iter: text.chars()
        invariant
            iter.seq() == text@,
            contents(parts@).push(current@) == fields(text@.take(iter.index() as int), separator),
    {
        let ghost index = iter.index() as int;
        let ghost before = contents(parts@).push(current@);
        assert(text@.take(index + 1).drop_last() =~= text@.take(index));
        if character == separator {
            let ghost finished = parts@;
            parts.push(current);
            assert(contents(parts@) =~= before);
            current = Vec::new();
            assert(contents(parts@).push(current@) =~= before.push(Seq::<char>::empty()));
        } else {
            current.push(character);
            assert(contents(parts@).push(current@) =~= before.update(
                before.len() - 1,
                before.last().push(character),
            ));
        }
    }
    assert(text@.take(text@.len() as int) =~= text@);
    let ghost before = contents(parts@).push(current@);
    parts.push(current);
    assert(contents(parts@) =~= before);
    parts
}

/// Whether a character is a decimal digit.
pub open spec fn is_digit(character: char) -> bool {
    48 <= character as int <= 57
}

/// The number that a sequence of decimal digits stands for.
pub open spec fn digits_value(digits: Seq<char>) -> nat
    decreases digits.len(),
{
    if digits.len() == 0 {
        0
    } else {
        digits_value(digits.drop_last()) * 10 + (digits.last() as int - 48) as nat
    }
}

/// The digits of a number after an optional plus sign.
pub open spec fn unsigned_digits(text: Seq<char>) -> Seq<char> {
    if text.len() > 0 && text[0] == '+' {
        text.skip(1)
    } else {
        text
    }
}

/// The byte that a text stands for: an optional plus sign, then one digit or more and nothing
/// else. There is none if the number is above 255.
pub open spec fn byte_value(text: Seq<char>) -> Option<u8> {
    let digits = unsigned_digits(text);
    if digits.len() > 0 && (forall|i: int| 0 <= i < digits.len() ==> is_digit(#[trigger] digits[i]))
        && digits_value(digits) <= 255 {
        Some(digits_value(digits) as u8)
    } else {
        None
    }
}

proof fn digits_value_grows(digits: Seq<char>, length: int)
    requires
        0 <= length <= digits.len(),
    ensures
        digits_value(digits.take(length)) <= digits_value(digits),
    decreases digits.len(),
{
    if length == digits.len() {
        assert(digits.take(length) =~= digits);
    } else {
        digits_value_grows(digits.drop_last(), length);
        assert(digits.drop_last().take(length) =~= digits.take(length));
    }
}

/// Reads a byte.
pub fn parse_byte(text: &Vec<char>) -> (result: Option<u8>)
    ensures
        result == byte_value(text@),
{
    let ghost digits = unsigned_digits(text@);
    let start: usize = if text.len() > 0 && text[0] == '+' {
        1
    } else {
        0
    };
    if start == text.len() {
        return None;
    }
    let mut value: u32 = 0;
    let mut index: usize = start;
    while index < text.len()
        invariant
            start <= index <= text.len(),
            digits == unsigned_digits(text@),
            start == 0 ==> digits == text@,
            start == 1 ==> digits == text@.skip(1),
            start <= 1,
            digits.len() == text.len() - start,
            forall|i: int| 0 <= i < index - start ==> is_digit(#[trigger] digits[i]),
            value == digits_value(digits.take(index - start)),
            value <= 255,
        decreases text.len() - index,
    {
        let code: u32 = code_point(text[index]);
        assert(digits[index - start] == text@[index as int]);
        if code < 48 || code > 57 {
            return None;
        }
        assert(digits.take(index - start + 1).drop_last() =~= digits.take(index - start));
        value = value * 10 + (code - 48);
        index = index + 1;
        if value > 255 {
            proof {
                digits_value_grows(digits, index - start);
            }
            return None;
        }
    }
    assert(digits.take(index - start) =~= digits);
    Some(value as u8)
}

/// Whether two texts are the same.
pub fn same_text(first: &str, second: &str) -> (result: bool)
    ensures
        result == (first@ == second@),
{
    let first_characters = characters(first);
    let second_characters = characters(second);
    if first_characters.len() != second_characters.len() {
        return false;
    }
    let mut index: usize = 0;
    while index < first_characters.len()
        invariant
            first_characters@ == first@,
            second_characters@ == second@,
            first_characters.len() == second_characters.len(),
            index <= first_characters.len(),
            forall|i: int| 0 <= i < index ==> first@[i] == second@[i],
        decreases first_characters.len() - index,
    {
        if first_characters[index] != second_characters[index] {
            return false;
        }
        index = index + 1;
    }
    assert(first@ =~= second@);
    true
}

/// Whether `pattern` stands in `text` at `position`.
pub open spec fn occurs_at(text: Seq<char>, pattern: Seq<char>, position: int) -> bool {
    &&& 0 <= position <= text.len() - pattern.len()
    &&& text.subrange(position, position + pattern.len()) == pattern
}

/// Whether `pattern` stands in `text` at `position`.
fn matches_at(text: &Vec<char>, pattern: &Vec<char>, position: usize) -> (result: bool)
    ensures
        result == occurs_at(text@, pattern@, position as int),
{
    if pattern.len() > text.len() || position > text.len() - pattern.len() {
        return false;
    }
    let ghost part = text@.subrange(position as int, position + pattern@.len());
    let mut index: usize = 0;
    while index < pattern.len()
        invariant
            pattern.len() <= text.len(),
            position <= text.len() - pattern.len(),
            part == text@.subrange(position as int, position + pattern@.len()),
            index <= pattern.len(),
            forall|i: int| 0 <= i < index ==> part[i] == pattern@[i],
        decreases pattern.len() - index,
    {
        assert(part[index as int] == text@[position + index]);
        if text[position + index] != pattern[index] {
            return false;
        }
        index = index + 1;
    }
    assert(part =~= pattern@);
    true
}

/// What follows a prefix of a text.
pub open spec fn after_prefix(text: Seq<char>, prefix: Seq<char>) -> Option<Seq<char>> {
    if prefix.is_prefix_of(text) {
        Some(text.skip(prefix.len() as int))
    } else {
        None
    }
}

/// What follows the prefix, if the text begins with it.
pub fn strip_prefix<'a>(text: &'a str, prefix: &str) -> (rest: Option<&'a str>)
    ensures
        rest is Some <==> after_prefix(text@, prefix@) is Some,
        rest is Some ==> rest->0@ == after_prefix(text@, prefix@)->0,
{
    let text_characters = characters(text);
    let prefix_characters = characters(prefix);
    if matches_at(&text_characters, &prefix_characters, 0) {
        assert(prefix@.is_prefix_of(text@));
        let rest = text.substring_char(prefix_characters.len(), text_characters.len());
        assert(rest@ =~= text@.skip(prefix@.len() as int));
        Some(rest)
    } else {
        proof {
            if prefix@.is_prefix_of(text@) {
                assert(text@.subrange(0, prefix@.len() as int) =~= prefix@);
            }
        }
        None
    }
}

/// Whether `pattern` stands anywhere in `text`.
pub open spec fn occurs_in(text: Seq<char>, pattern: Seq<char>) -> bool {
    exists|position: int| occurs_at(text, pattern, position)
}

/// Whether `pattern` stands anywhere in `text`.
pub fn contains(text: &str, pattern: &str) -> (result: bool)
    ensures
        result == occurs_in(text@, pattern@),
{
    let text_characters = characters(text);
    let pattern_characters = characters(pattern);
    if pattern_characters.len() > text_characters.len() {
        return false;
    }
    let last: usize = text_characters.len() - pattern_characters.len();
    let mut position: usize = 0;
    while position < last
        invariant
            text_characters@ == text@,
            pattern_characters@ == pattern@,
            last == text@.len() - pattern@.len(),
            position <= last,
            forall|p: int| 0 <= p < position ==> !occurs_at(text@, pattern@, p),
        decreases last - position,
    {
        if matches_at(&text_characters, &pattern_characters, position) {
            return true;
        }
        position = position + 1;
    }
    matches_at(&text_characters, &pattern_characters, last)
}

/// The characters that Unicode counts as white space.
pub open spec fn is_white_space(character: char) -> bool {
    let code = character as int;
    ||| 0x9 <= code <= 0xd
    ||| code == 0x20
    ||| code == 0x85
    ||| code == 0xa0
    ||| code == 0x1680
    ||| 0x2000 <= code <= 0x200a
    ||| code == 0x2028
    ||| code == 0x2029
    ||| code == 0x202f
    ||| code == 0x205f
    ||| code == 0x3000
}

fn white_space(character: char) -> (result: bool)
    ensures
        result == is_white_space(character),
{
    let code: u32 = code_point(character);
    (0x9 <= code && code <= 0xd) || code == 0x20 || code == 0x85 || code == 0xa0 || code == 0x1680
        || (0x2000 <= code && code <= 0x200a) || code == 0x2028 || code == 0x2029 || code == 0x202f
        || code == 0x205f || code == 0x3000
}

/// A text without the white space that it begins with.
pub open spec fn trimmed_start(text: Seq<char>) -> Seq<char>
    decreases text.len(),
{
    if text.len() > 0 && is_white_space(text[0]) {
        trimmed_start(text.skip(1))
    } else {
        text
    }
}

/// A text without the white space that it ends with.
pub open spec fn trimmed_end(text: Seq<char>) -> Seq<char>
    decreases text.len(),
{
    if text.len() > 0 && is_white_space(text.last()) {
        trimmed_end(text.drop_last())
    } else {
        text
    }
}

/// A text without the white space around it.
pub open spec fn trimmed(text: Seq<char>) -> Seq<char> {
    trimmed_end(trimmed_start(text))
}

/// Takes the white space around a text away.
pub fn trim(text: &str) -> (result: &str)
    ensures
        result@ == trimmed(text@),
{
    let all = characters(text);
    let mut start: usize = 0;
    assert(text@.skip(0) =~= text@);
    while start < all.len() && white_space(all[start])
        invariant
            all@ == text@,
            start <= all.len(),
            trimmed_start(text@.skip(start as int)) == trimmed_start(text@),
        decreases all.len() - start,
    {
        assert(text@.skip(start as int).skip(1) =~= text@.skip(start + 1));
        start = start + 1;
    }
    let mut end: usize = all.len();
    let ghost rest = text@.skip(start as int);
    assert(text@.subrange(start as int, end as int) =~= rest);
    while start < end && white_space(all[end - 1])
        invariant
            all@ == text@,
            start <= end <= all.len(),
            trimmed_end(text@.subrange(start as int, end as int)) == trimmed_end(rest),
        decreases end,
    {
        assert(text@.subrange(start as int, end as int).drop_last() =~= text@.subrange(
            start as int,
            end - 1,
        ));
        end = end - 1;
    }
    text.substring_char(start, end)
}

/// The parts, with the separator between each and the next.
pub open spec fn joined(parts: Seq<Seq<char>>, separator: char) -> Seq<char>
    decreases parts.len(),
{
    if parts.len() == 0 {
        seq![]
    } else if parts.len() == 1 {
        parts[0]
    } else {
        joined(parts.drop_last(), separator).push(separator) + parts.last()
    }
}

/// The texts of a list.
pub open spec fn texts(list: Seq<String>) -> Seq<Seq<char>> {
    list.map_values(|text: String| text@)
}

/// Puts the separator between each text and the next.
pub fn join(list: &Vec<String>, separator: char) -> (result: String)
    ensures
        result@ == joined(texts(list@), separator),
{
    let mut result: String = String::new();
    let mut index: usize = 0;
    let ghost all = texts(list@);
    assert(result@ =~= joined(all.take(0), separator));
    while index < list.len()
        invariant
            all == texts(list@),
            index <= list.len(),
            result@ == joined(all.take(index as int), separator),
        decreases list.len() - index,
    {
        let ghost front = all.take(index + 1);
        assert(front.drop_last() =~= all.take(index as int));
        if index > 0 {
            result.push(separator);
        }
        result.append(list[index].as_str());
        assert(front.last() == list@[index as int]@);
        assert(result@ =~= joined(front, separator));
        index = index + 1;
    }
    assert(all.take(list.len() as int) =~= all);
    result
}

/// Splitting a text that is put together from two with a separator between them gives the parts
/// of the first and then those of the second.
pub proof fn fields_of_concatenation(first: Seq<char>, separator: char, second: Seq<char>)
    ensures
        fields(first.push(separator) + second, separator) == fields(first, separator) + fields(
            second,
            separator,
        ),
    decreases second.len(),
{
    let whole = first.push(separator) + second;
    if second.len() == 0 {
        assert(whole =~= first.push(separator));
        assert(whole.drop_last() =~= first);
        assert(fields(whole, separator) =~= fields(first, separator) + fields(second, separator));
    } else {
        let shorter = second.drop_last();
        assert(whole.drop_last() =~= first.push(separator) + shorter);
        fields_of_concatenation(first, separator, shorter);
        fields_are_never_none(shorter, separator);
        assert(fields(whole, separator) =~= fields(first, separator) + fields(second, separator));
    }
}

/// A text without separators is its only part.
pub proof fn fields_of_single(text: Seq<char>, separator: char)
    requires
        !text.contains(separator),
    ensures
        fields(text, separator) == seq![text],
    decreases text.len(),
{
    if text.len() > 0 {
        let shorter = text.drop_last();
        assert forall|i: int| 0 <= i < shorter.len() implies shorter[i] != separator by {
            assert(text[i] != separator);
        }
        fields_of_single(shorter, separator);
        assert(text.last() != separator) by {
            assert(text[text.len() - 1] != separator);
        }
        assert(shorter.push(text.last()) =~= text);
        assert(fields(text, separator) =~= seq![text]);
    } else {
        assert(text =~= Seq::<char>::empty());
    }
}

/// Splitting what was joined gives the parts back, if no part holds the separator.
pub proof fn fields_of_joined(parts: Seq<Seq<char>>, separator: char)
    requires
        parts.len() > 0,
        forall|i: int| 0 <= i < parts.len() ==> !(#[trigger] parts[i]).contains(separator),
    ensures
        fields(joined(parts, separator), separator) == parts,
    decreases parts.len(),
{
    if parts.len() == 1 {
        fields_of_single(parts[0], separator);
        assert(parts =~= seq![parts[0]]);
    } else {
        let front = parts.drop_last();
        assert forall|i: int| 0 <= i < front.len() implies !(#[trigger] front[i]).contains(
            separator,
        ) by {
            assert(front[i] == parts[i]);
        }
        fields_of_joined(front, separator);
        fields_of_single(parts.last(), separator);
        fields_of_concatenation(joined(front, separator), separator, parts.last());
        assert(front + seq![parts.last()] =~= parts);
    }
}

/// Reading a number that was written in decimal gives the number back.
pub proof fn decimal_is_read_back(value: nat)
    ensures
        decimal(value).len() > 0,
        forall|i: int| 0 <= i < decimal(value).len() ==> is_digit(#[trigger] decimal(value)[i]),
        digits_value(decimal(value)) == value,
        value <= 255 ==> byte_value(decimal(value)) == Some(value as u8),
    decreases value,
{
    let digits = decimal(value);
    if value < 10 {
        assert(digits.drop_last() =~= Seq::<char>::empty());
        assert(digits_value(digits.drop_last()) == 0);
    } else {
        decimal_is_read_back(value / 10);
        assert(digits.drop_last() =~= decimal(value / 10));
    }
    assert(is_digit(digits[0]));
    assert(unsigned_digits(digits) == digits);
}

/// A number in decimal has no leading zero, unless it is zero.
pub proof fn decimal_has_no_leading_zero(value: nat)
    ensures
        decimal(value)[0] == '0' <==> value == 0,
        value < 10 ==> decimal(value).len() == 1,
        decimal(value).len() > 0,
    decreases value,
{
    if value >= 10 {
        decimal_has_no_leading_zero(value / 10);
        assert(decimal(value)[0] == decimal(value / 10)[0]);
    }
}

/// A negative number in decimal is a minus sign and the number without its sign; any other number is
/// written as it is.
pub proof fn sign_stands_in_front(value: int)
    ensures
        value >= 0 ==> signed_decimal(value) == decimal(value as nat),
        value < 0 ==> signed_decimal(value).len() > 1 && signed_decimal(value)[0] == '-'
            && signed_decimal(value).skip(1) == decimal((-value) as nat),
{
    if value < 0 {
        decimal_has_no_leading_zero((-value) as nat);
        assert(signed_decimal(value).skip(1) =~= decimal((-value) as nat));
    }
}

/// The two truths, letter by letter.
pub proof fn truths_are_spelled_out()
    ensures
        truth(true) == seq!['t', 'r', 'u', 'e'],
        truth(false) == seq!['f', 'a', 'l', 's', 'e'],
{
    reveal_strlit("true");
    reveal_strlit("false");
    assert(truth(true) =~= seq!['t', 'r', 'u', 'e']);
    assert(truth(false) =~= seq!['f', 'a', 'l', 's', 'e']);
}

/// The number that a hexadecimal digit stands for, where letters are small.
pub open spec fn hex_digit_value(digit: char) -> int {
    if '0' <= digit <= '9' {
        digit as int - '0' as int
    } else if 'a' <= digit <= 'f' {
        digit as int - 'a' as int + 10
    } else {
        -1
    }
}

/// The number that hexadecimal digits stand for.
pub open spec fn hex_value(digits: Seq<char>) -> int
    decreases digits.len(),
{
    if digits.len() == 0 {
        0
    } else {
        hex_value(digits.drop_last()) * 16 + hex_digit_value(digits.last())
    }
}

/// Reading a number that was written in hexadecimal with enough digits gives the number back.
pub proof fn hexadecimal_is_read_back(value: nat, width: nat)
    requires
        value < pow(16, width),
    ensures
        hexadecimal(value, width).len() == width,
        forall|i: int|
            0 <= i < width ==> 0 <= hex_digit_value(#[trigger] hexadecimal(value, width)[i]) < 16,
        hex_value(hexadecimal(value, width)) == value,
    decreases width,
{
    reveal(pow);
    if width > 0 {
        let rest = pow(16, (width - 1) as nat);
        assert(value / 16 < rest) by (nonlinear_arith)
            requires
                value < 16 * rest,
                value >= 0,
        ;
        hexadecimal_is_read_back(value / 16, (width - 1) as nat);
        let digits = hexadecimal(value, width);
        assert(digits.drop_last() =~= hexadecimal(value / 16, (width - 1) as nat));
        assert(hex_digit_value(digits.last()) == value % 16);
        assert forall|i: int| 0 <= i < width implies 0 <= hex_digit_value(#[trigger] digits[i])
            < 16 by {
            if i < width - 1 {
                assert(digits[i] == digits.drop_last()[i]);
            }
        }
    }
}

/// Eight digits hold every 32-bit number.
pub proof fn eight_digits_hold_a_word(value: u32)
    ensures
        hexadecimal(value as nat, 8).len() == 8,
        hex_value(hexadecimal(value as nat, 8)) == value,
{
    reveal_with_fuel(pow, 9);
    assert(pow(16, 8) == 0x1_0000_0000);
    hexadecimal_is_read_back(value as nat, 8);
}

/// Zeros in front of digits make no difference to their number.
proof fn zeros_in_front(zeros: nat, digits: Seq<char>)
    ensures
        digits_value(Seq::new(zeros, |i: int| '0') + digits) == digits_value(digits),
    decreases digits.len(), zeros,
{
    let front = Seq::new(zeros, |i: int| '0');
    let whole = front + digits;
    if digits.len() == 0 {
        assert(whole =~= front);
        if zeros > 0 {
            let shorter = Seq::new((zeros - 1) as nat, |i: int| '0');
            zeros_in_front((zeros - 1) as nat, digits);
            assert(shorter + digits =~= shorter);
            assert(front.drop_last() =~= shorter);
        }
    } else {
        zeros_in_front(zeros, digits.drop_last());
        assert(whole.drop_last() =~= front + digits.drop_last());
    }
}

/// A byte may be written with zeros in front, and with a plus sign before everything.
pub proof fn zeros_and_a_plus_may_stand_in_front(value: u8, zeros: nat)
    ensures
        ({
            let digits = Seq::new(zeros, |i: int| '0') + decimal(value as nat);
            byte_value(digits) == Some(value) && byte_value(seq!['+'] + digits) == Some(value)
        }),
{
    let front = Seq::new(zeros, |i: int| '0');
    let number = decimal(value as nat);
    let digits = front + number;
    decimal_is_read_back(value as nat);
    zeros_in_front(zeros, number);
    assert forall|i: int| 0 <= i < digits.len() implies is_digit(#[trigger] digits[i]) by {
        if i >= zeros {
            assert(digits[i] == number[i - zeros]);
        }
    }
    assert(is_digit(digits[0]));
    assert(unsigned_digits(digits) == digits);
    assert((seq!['+'] + digits).skip(1) =~= digits);
    assert(unsigned_digits(seq!['+'] + digits) == digits);
}

/// A number above 255 is no byte.
pub proof fn larger_numbers_are_no_byte(value: nat)
    requires
        value > 255,
    ensures
        byte_value(decimal(value)) is None,
{
    decimal_is_read_back(value);
    assert(is_digit(decimal(value)[0]));
    assert(unsigned_digits(decimal(value)) == decimal(value));
}

/// A text with anything but digits and one plus sign in front of them is no byte, nor is one without
/// digits.
pub proof fn stray_characters_are_no_byte(text: Seq<char>, index: int)
    ensures
        0 <= index < text.len() && !('0' <= text[index] <= '9') && !(index == 0 && text[0] == '+')
            ==> byte_value(text) is None,
        text.len() == 0 ==> byte_value(text) is None,
        text == seq!['+'] ==> byte_value(text) is None,
{
    let digits = unsigned_digits(text);
    if 0 <= index < text.len() && !('0' <= text[index] <= '9') && !(index == 0 && text[0] == '+') {
        if text[0] == '+' {
            assert(digits[index - 1] == text[index]);
            assert(!is_digit(digits[index - 1]));
        } else {
            assert(digits[index] == text[index]);
            assert(!is_digit(digits[index]));
        }
    }
}

/// What follows a prefix is what was put behind it, and nothing follows a prefix that is not there.
pub proof fn prefix_is_taken_off(prefix: Seq<char>, rest: Seq<char>, text: Seq<char>)
    ensures
        after_prefix(prefix + rest, prefix) == Some(rest),
        after_prefix(text, prefix) matches Some(tail) ==> text == prefix + tail,
{
    assert(prefix.is_prefix_of(prefix + rest)) by {
        assert((prefix + rest).subrange(0, prefix.len() as int) =~= prefix);
    }
    assert((prefix + rest).skip(prefix.len() as int) =~= rest);
    if let Some(tail) = after_prefix(text, prefix) {
        assert(text =~= prefix + tail);
    }
}

/// A pattern stands in a text exactly if the text is something, the pattern, and something.
pub proof fn pattern_stands_between_two_parts(text: Seq<char>, pattern: Seq<char>)
    ensures
        occurs_in(text, pattern) <==> exists|front: Seq<char>, back: Seq<char>|
            text == #[trigger] (front + pattern + back),
{
    if occurs_in(text, pattern) {
        let position = choose|position: int| occurs_at(text, pattern, position);
        let front = text.take(position);
        let back = text.skip(position + pattern.len());
        assert(text =~= front + pattern + back) by {
            assert forall|i: int| 0 <= i < pattern.len() implies text[position + i] == pattern[i] by {
                assert(text.subrange(position, position + pattern.len())[i] == pattern[i]);
            }
        }
    }
    if exists|front: Seq<char>, back: Seq<char>| text == #[trigger] (front + pattern + back) {
        let (front, back) = choose|front: Seq<char>, back: Seq<char>|
            text == #[trigger] (front + pattern + back);
        let position = front.len() as int;
        assert(text.subrange(position, position + pattern.len()) =~= pattern);
        assert(occurs_at(text, pattern, position));
    }
}

/// Whether a text is white space only.
pub open spec fn is_blank(text: Seq<char>) -> bool {
    forall|i: int| 0 <= i < text.len() ==> is_white_space(#[trigger] text[i])
}

/// The white space characters are these, by their code points.
pub proof fn white_space_characters(character: char)
    ensures
        is_white_space(character) <==> {
            let code = character as int;
            ||| 9 <= code <= 13
            ||| code == 32 || code == 133 || code == 160 || code == 5760
            ||| 8192 <= code <= 8202
            ||| code == 8232 || code == 8233 || code == 8239 || code == 8287 || code == 12288
        },
{
}

proof fn start_is_trimmed(text: Seq<char>)
    ensures
        exists|front: Seq<char>|
            #![trigger front + trimmed_start(text)]
            is_blank(front) && text == front + trimmed_start(text),
        trimmed_start(text).len() > 0 ==> !is_white_space(trimmed_start(text)[0]),
    decreases text.len(),
{
    if text.len() > 0 && is_white_space(text[0]) {
        start_is_trimmed(text.skip(1));
        let front = choose|front: Seq<char>|
            #![trigger front + trimmed_start(text.skip(1))]
            is_blank(front) && text.skip(1) == front + trimmed_start(text.skip(1));
        let longer = seq![text[0]] + front;
        assert forall|i: int| 0 <= i < longer.len() implies is_white_space(#[trigger] longer[i]) by {
            if i > 0 {
                assert(longer[i] == front[i - 1]);
            }
        }
        assert(text =~= longer + trimmed_start(text)) by {
            assert(text =~= seq![text[0]] + text.skip(1));
        }
    } else {
        let none = Seq::<char>::empty();
        assert(text =~= none + trimmed_start(text));
        assert(is_blank(none));
    }
}

proof fn end_is_trimmed(text: Seq<char>)
    ensures
        exists|back: Seq<char>|
            #![trigger trimmed_end(text) + back]
            is_blank(back) && text == trimmed_end(text) + back,
        trimmed_end(text).len() > 0 ==> !is_white_space(trimmed_end(text).last()),
        trimmed_end(text).len() > 0 ==> trimmed_end(text)[0] == text[0],
    decreases text.len(),
{
    if text.len() > 0 && is_white_space(text.last()) {
        let shorter = text.drop_last();
        end_is_trimmed(shorter);
        let back = choose|back: Seq<char>|
            #![trigger trimmed_end(shorter) + back]
            is_blank(back) && shorter == trimmed_end(shorter) + back;
        let longer = back.push(text.last());
        assert forall|i: int| 0 <= i < longer.len() implies is_white_space(#[trigger] longer[i]) by {
            if i < back.len() {
                assert(longer[i] == back[i]);
            }
        }
        assert(text =~= trimmed_end(text) + longer) by {
            assert(text =~= shorter.push(text.last()));
        }
    } else {
        let none = Seq::<char>::empty();
        assert(text =~= trimmed_end(text) + none);
        assert(is_blank(none));
    }
}

/// Trimming takes white space off both ends and nothing else, and leaves none there.
pub proof fn only_surrounding_white_space_is_trimmed(text: Seq<char>)
    ensures
        exists|front: Seq<char>, back: Seq<char>|
            is_blank(front) && is_blank(back) && text == #[trigger] (front + trimmed(text) + back),
        trimmed(text).len() > 0 ==> !is_white_space(trimmed(text)[0]) && !is_white_space(
            trimmed(text).last(),
        ),
{
    start_is_trimmed(text);
    let middle = trimmed_start(text);
    end_is_trimmed(middle);
    let front = choose|front: Seq<char>|
        #![trigger front + trimmed_start(text)]
        is_blank(front) && text == front + trimmed_start(text);
    let back = choose|back: Seq<char>|
        #![trigger trimmed_end(middle) + back]
        is_blank(back) && middle == trimmed_end(middle) + back;
    assert(text =~= front + trimmed(text) + back);
}

/// Joining puts the separator between each part and the next, and nowhere else.
pub proof fn separator_stands_between_parts(
    parts: Seq<Seq<char>>,
    part: Seq<char>,
    separator: char,
)
    ensures
        joined(Seq::<Seq<char>>::empty(), separator) == Seq::<char>::empty(),
        joined(seq![part], separator) == part,
        parts.len() > 0 ==> joined(parts.push(part), separator) == joined(parts, separator)
            + seq![separator] + part,
{
    if parts.len() > 0 {
        assert(parts.push(part).drop_last() =~= parts);
        assert(joined(parts.push(part), separator) =~= joined(parts, separator) + seq![separator]
            + part);
    }
}

/// Each digit stands for what its place among the digits says, and one more digit behind a number is
/// worth ten times the number and itself. That holds for writing and for reading.
pub proof fn digits_count_by_their_place(value: nat, last: nat, digits: Seq<char>, character: char)
    requires
        last < 10,
    ensures
        decimal(last).len() == 1,
        decimal(last)[0] as int == '0' as int + last,
        value > 0 ==> decimal(10 * value + last) == decimal(value) + decimal(last),
        digits_value(Seq::<char>::empty()) == 0,
        '0' <= character <= '9' ==> digits_value(digits.push(character)) == 10 * digits_value(
            digits,
        ) + (character as int - '0' as int),
        '0' <= character <= '9' ==> (byte_value(seq![character]) matches Some(byte) && byte
            == character as int - '0' as int),
{
    assert(digits.push(character).drop_last() =~= digits);
    if value > 0 {
        assert((10 * value + last) / 10 == value && (10 * value + last) % 10 == last);
        assert(decimal(10 * value + last) =~= decimal(value) + decimal(last));
    }
    let one = seq![character];
    assert(one.drop_last() =~= Seq::<char>::empty());
    assert(unsigned_digits(one) == one || character == '+');
    reveal_with_fuel(digits_value, 2);
}

} // verus!

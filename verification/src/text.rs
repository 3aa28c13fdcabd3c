//! Small pieces of text handling: white space, trimming, splitting at a
//! separator, and decimal numbers.
use vstd::prelude::*;

verus! {

/// The characters with the Unicode `White_Space` property.
pub open spec fn white_space(c: char) -> bool {
    ||| 0x09 <= c as int <= 0x0d
    ||| c as int == 0x20
    ||| c as int == 0x85
    ||| c as int == 0xa0
    ||| c as int == 0x1680
    ||| 0x2000 <= c as int <= 0x200a
    ||| c as int == 0x2028
    ||| c as int == 0x2029
    ||| c as int == 0x202f
    ||| c as int == 0x205f
    ||| c as int == 0x3000
}

/// Whether `c` is a white-space character.
pub fn is_white_space(c: char) -> (yes: bool)
    ensures
        yes == white_space(c),
{
    let code: u32 = c as u32;
    (0x09 <= code && code <= 0x0d) || code == 0x20 || code == 0x85 || code == 0xa0 || code == 0x1680
        || (0x2000 <= code && code <= 0x200a) || code == 0x2028 || code == 0x2029 || code == 0x202f
        || code == 0x205f || code == 0x3000
}

/// Whether two texts hold the same characters.
pub fn same_text(left: &str, right: &str) -> (same: bool)
    ensures
        same == (left@ == right@),
{
    left.to_owned() == right.to_owned()
}

/// The characters of `text`, in order.
pub fn chars_of(text: &str) -> (chars: Vec<char>)
    ensures
        chars@ == text@,
{
    let mut chars: Vec<char> = Vec::new();
    for c in iter: text.chars()
        invariant
            chars@ == iter.seq().take(iter.index()),
            iter.seq() == text@,
    {
        chars.push(c);
    }
    chars
}

/// `text` without its leading white space.
pub open spec fn trimmed_front(text: Seq<char>) -> Seq<char>
    decreases text.len(),
{
    if text.len() > 0 && white_space(text.first()) {
        trimmed_front(text.drop_first())
    } else {
        text
    }
}

/// `text` without its trailing white space.
pub open spec fn trimmed_back(text: Seq<char>) -> Seq<char>
    decreases text.len(),
{
    if text.len() > 0 && white_space(text.last()) {
        trimmed_back(text.drop_last())
    } else {
        text
    }
}

/// `text` without white space at either end.
pub open spec fn trimmed(text: Seq<char>) -> Seq<char> {
    trimmed_back(trimmed_front(text))
}

/// Removes the white space at both ends of `text`.
pub fn trim(text: &str) -> (inner: &str)
    ensures
        inner@ == trimmed(text@),
{
    let chars = chars_of(text);
    let mut from: usize = 0;
    assert(text@.skip(0) == text@);
    while from < chars.len() && is_white_space(chars[from])
        invariant
            chars@ == text@,
            from <= chars.len(),
            trimmed_front(text@) == trimmed_front(text@.skip(from as int)),
        decreases chars.len() - from,
    {
        assert(text@.skip(from as int).drop_first() == text@.skip(from + 1));
        from += 1;
    }
    let ghost front = text@.skip(from as int);
    assert(trimmed_front(front) == front);
    let mut to: usize = chars.len();
    assert(text@.subrange(from as int, to as int) == front);
    while from < to && is_white_space(chars[to - 1])
        invariant
            chars@ == text@,
            from <= to <= chars.len(),
            trimmed_back(front) == trimmed_back(text@.subrange(from as int, to as int)),
        decreases to,
    {
        assert(text@.subrange(from as int, to as int).drop_last() == text@.subrange(
            from as int,
            to - 1,
        ));
        to -= 1;
    }
    text.substring_char(from, to)
}

/// Trimming leaves no white space at either end of the text.
pub proof fn trimmed_has_no_white_space_at_its_ends(text: Seq<char>)
    ensures
        trimmed(text).len() > 0 ==> !white_space(trimmed(text).first()),
        trimmed(text).len() > 0 ==> !white_space(trimmed(text).last()),
{
    lemma_front(text);
    lemma_back(trimmed_front(text));
}

proof fn lemma_front(text: Seq<char>)
    ensures
        trimmed_front(text).len() > 0 ==> !white_space(trimmed_front(text).first()),
    decreases text.len(),
{
    if text.len() > 0 && white_space(text.first()) {
        lemma_front(text.drop_first());
    }
}

proof fn lemma_back(text: Seq<char>)
    ensures
        trimmed_back(text).len() > 0 ==> !white_space(trimmed_back(text).last()),
        trimmed_back(text).len() > 0 ==> trimmed_back(text).first() == text.first(),
    decreases text.len(),
{
    if text.len() > 0 && white_space(text.last()) {
        lemma_back(text.drop_last());
    }
}

/// What stands before and behind the first `separator` in `text`.
pub open spec fn parts(text: Seq<char>, separator: char) -> Option<(Seq<char>, Seq<char>)>
    decreases text.len(),
{
    if text.len() == 0 {
        None
    } else if text.first() == separator {
        Some((Seq::empty(), text.drop_first()))
    } else {
        match parts(text.drop_first(), separator) {
            Some((left, right)) => Some((seq![text.first()] + left, right)),
            None => None,
        }
    }
}

/// `parts` puts a text that has the separator apart, and nothing else: joined
/// again, the parts are the text, and the separator is not in the left one.
pub proof fn parts_join_to_the_text(text: Seq<char>, separator: char)
    ensures
        match parts(text, separator) {
            Some((left, right)) => text == left + seq![separator] + right && !left.contains(
                separator,
            ),
            None => !text.contains(separator),
        },
    decreases text.len(),
{
    if text.len() > 0 {
        let rest = text.drop_first();
        parts_join_to_the_text(rest, separator);
        assert(text == seq![text.first()] + rest);
        if text.first() == separator {
            assert(text == Seq::<char>::empty() + seq![separator] + rest);
        } else {
            match parts(rest, separator) {
                Some((left, right)) => {
                    assert(text == (seq![text.first()] + left) + seq![separator] + right);
                    assert forall|i: int| 0 <= i < left.len() + 1 implies (seq![text.first()]
                        + left)[i] != separator by {
                        if i > 0 {
                            assert(left[i - 1] != separator);
                        }
                    }
                },
                None => {
                    assert forall|i: int| 0 <= i < text.len() implies text[i] != separator by {
                        if i > 0 {
                            assert(text[i] == rest[i - 1]);
                            assert(rest.contains(rest[i - 1]));
                        }
                    }
                },
            }
        }
    }
}

proof fn lemma_parts_at(text: Seq<char>, separator: char, at: int)
    requires
        0 <= at < text.len(),
        text[at] == separator,
        forall|k: int| 0 <= k < at ==> text[k] != separator,
    ensures
        parts(text, separator) == Some((text.take(at), text.skip(at + 1))),
    decreases at,
{
    if at == 0 {
        assert(text.take(0) == Seq::<char>::empty());
        assert(text.skip(1) == text.drop_first());
    } else {
        let rest = text.drop_first();
        assert forall|k: int| 0 <= k < at - 1 implies rest[k] != separator by {
            assert(rest[k] == text[k + 1]);
        }
        lemma_parts_at(rest, separator, at - 1);
        assert(text.take(at) == seq![text.first()] + rest.take(at - 1));
        assert(text.skip(at + 1) == rest.skip(at));
    }
}

/// Splits `text` at the first `separator`, which belongs to neither part.
pub fn split_once(text: &str, separator: char) -> (split: Option<(&str, &str)>)
    ensures
        match split {
            Some((left, right)) => parts(text@, separator) == Some((left@, right@)),
            None => parts(text@, separator) is None,
        },
{
    let chars = chars_of(text);
    for at in 0..chars.len()
        invariant
            chars@ == text@,
            forall|k: int| 0 <= k < at ==> text@[k] != separator,
    {
        if chars[at] == separator {
            proof {
                lemma_parts_at(text@, separator, at as int);
            }
            let left = text.substring_char(0, at);
            let right = text.substring_char(at + 1, chars.len());
            assert(left@ == text@.take(at as int));
            assert(right@ == text@.skip(at + 1));
            return Some((left, right));
        }
    }
    proof {
        parts_join_to_the_text(text@, separator);
        if let Some((left, right)) = parts(text@, separator) {
            assert(text@[left.len() as int] == separator);
        }
    }
    None
}

/// The decimal digit for a value below ten.
pub open spec fn digit(value: nat) -> char {
    (('0' as int) + value) as char
}

/// `value` in decimal notation, without leading zeros.
pub open spec fn decimal(value: nat) -> Seq<char>
    decreases value,
{
    if value < 10 {
        seq![digit(value)]
    } else {
        decimal(value / 10).push(digit(value % 10))
    }
}

fn digit_text(value: u32) -> (text: &'static str)
    requires
        value < 10,
    ensures
        text@ == seq![digit(value as nat)],
{
    proof {
        reveal_strlit("0");
        reveal_strlit("1");
        reveal_strlit("2");
        reveal_strlit("3");
        reveal_strlit("4");
        reveal_strlit("5");
        reveal_strlit("6");
        reveal_strlit("7");
        reveal_strlit("8");
        reveal_strlit("9");
    }
    if value == 0 {
        "0"
    } else if value == 1 {
        "1"
    } else if value == 2 {
        "2"
    } else if value == 3 {
        "3"
    } else if value == 4 {
        "4"
    } else if value == 5 {
        "5"
    } else if value == 6 {
        "6"
    } else if value == 7 {
        "7"
    } else if value == 8 {
        "8"
    } else {
        "9"
    }
}

/// Writes `value` in decimal notation.
pub fn decimal_text(value: u32) -> (text: String)
    ensures
        text@ == decimal(value as nat),
    decreases value,
{
    if value < 10 {
        digit_text(value).to_owned()
    } else {
        let mut text = decimal_text(value / 10);
        text.append(digit_text(value % 10));
        assert(text@ == decimal((value / 10) as nat).push(digit((value % 10) as nat)));
        text
    }
}

/// The upper-case hexadecimal digit for a value below sixteen.
pub open spec fn hex_digit(value: nat) -> char {
    if value < 10 {
        digit(value)
    } else {
        (('A' as int) + value - 10) as char
    }
}

/// The low `digits` hexadecimal digits of `value`.
pub open spec fn hex(value: nat, digits: nat) -> Seq<char>
    decreases digits,
{
    if digits == 0 {
        Seq::empty()
    } else {
        hex(value / 16, (digits - 1) as nat).push(hex_digit(value % 16))
    }
}

/// `value` as eight hexadecimal digits.
pub open spec fn hex8(value: nat) -> Seq<char> {
    hex(value, 8)
}

fn hex_digit_text(value: u32) -> (text: &'static str)
    requires
        value < 16,
    ensures
        text@ == seq![hex_digit(value as nat)],
{
    proof {
        reveal_strlit("A");
        reveal_strlit("B");
        reveal_strlit("C");
        reveal_strlit("D");
        reveal_strlit("E");
        reveal_strlit("F");
    }
    if value < 10 {
        digit_text(value)
    } else if value == 10 {
        "A"
    } else if value == 11 {
        "B"
    } else if value == 12 {
        "C"
    } else if value == 13 {
        "D"
    } else if value == 14 {
        "E"
    } else {
        "F"
    }
}

fn hex_text(value: u32, digits: u32) -> (text: String)
    ensures
        text@ == hex(value as nat, digits as nat),
    decreases digits,
{
    if digits == 0 {
        String::new()
    } else {
        let mut text = hex_text(value / 16, digits - 1);
        text.append(hex_digit_text(value % 16));
        assert(text@ == hex((value / 16) as nat, (digits - 1) as nat).push(
            hex_digit((value % 16) as nat),
        ));
        text
    }
}

/// Writes `value` as eight hexadecimal digits.
pub fn hex8_text(value: u32) -> (text: String)
    ensures
        text@ == hex8(value as nat),
{
    hex_text(value, 8)
}

/// A space, a tab, a line feed and a carriage return are white space, and so are the
/// blanks beyond ASCII; no printable ASCII character is, nor any control character
/// but the tabs, feeds and the return.
pub proof fn blanks_are_white_space(c: char, yes: bool)
    requires
        call_ensures(is_white_space, (c,), yes),
    ensures
        c == ' ' || c == '\t' || c == '\n' || c == '\r' ==> yes,
        c == '\u{b}' || c == '\u{c}' || c == '\u{85}' || c == '\u{a0}' || c == '\u{1680}' ==> yes,
        '\u{2000}' <= c <= '\u{200a}' || c == '\u{2028}' || c == '\u{2029}' ==> yes,
        c == '\u{202f}' || c == '\u{205f}' || c == '\u{3000}' ==> yes,
        '!' <= c <= '~' ==> !yes,
        c < '\t' || '\u{e}' <= c <= '\u{1f}' ==> !yes,
        '\u{a1}' <= c <= '\u{167f}' || '\u{200b}' <= c <= '\u{2027}' ==> !yes,
        c > '\u{3000}' ==> !yes,
{
}

/// Trimming cuts white space off both ends, as much as there is, and nothing else.
pub proof fn trimming_cuts_only_white_space(text: &str, inner: &str) -> (cut: (int, int))
    requires
        call_ensures(trim, (text,), inner),
    ensures
        0 <= cut.0 <= cut.1 <= text@.len(),
        inner@ == text@.subrange(cut.0, cut.1),
        forall|i: int| 0 <= i < cut.0 ==> white_space(#[trigger] text@[i]),
        forall|i: int| cut.1 <= i < text@.len() ==> white_space(#[trigger] text@[i]),
        inner@.len() > 0 ==> !white_space(inner@.first()) && !white_space(inner@.last()),
        inner@.len() == 0 ==> forall|i: int|
            0 <= i < text@.len() ==> white_space(#[trigger] text@[i]),
{
    trimmed_has_no_white_space_at_its_ends(text@);
    let from = lemma_front_cut(text@);
    let front = text@.skip(from);
    let to = from + lemma_back_cut(front);
    assert(inner@ == text@.subrange(from, to));
    assert forall|i: int| to <= i < text@.len() implies white_space(#[trigger] text@[i]) by {
        assert(front[i - from] == text@[i]);
    }
    (from, to)
}

proof fn lemma_front_cut(text: Seq<char>) -> (from: int)
    ensures
        0 <= from <= text.len(),
        trimmed_front(text) == text.skip(from),
        forall|i: int| 0 <= i < from ==> white_space(#[trigger] text[i]),
    decreases text.len(),
{
    if text.len() > 0 && white_space(text.first()) {
        let rest = text.drop_first();
        let from = lemma_front_cut(rest);
        assert(rest.skip(from) == text.skip(from + 1));
        assert forall|i: int| 0 <= i < from + 1 implies white_space(#[trigger] text[i]) by {
            if i > 0 {
                assert(rest[i - 1] == text[i]);
            }
        }
        from + 1
    } else {
        assert(text.skip(0) == text);
        0
    }
}

proof fn lemma_back_cut(text: Seq<char>) -> (to: int)
    ensures
        0 <= to <= text.len(),
        trimmed_back(text) == text.take(to),
        forall|i: int| to <= i < text.len() ==> white_space(#[trigger] text[i]),
    decreases text.len(),
{
    if text.len() > 0 && white_space(text.last()) {
        let rest = text.drop_last();
        let to = lemma_back_cut(rest);
        assert(rest.take(to) == text.take(to));
        assert forall|i: int| to <= i < text.len() implies white_space(#[trigger] text[i]) by {
            if i < rest.len() {
                assert(rest[i] == text[i]);
            }
        }
        to
    } else {
        assert(text.take(text.len() as int) == text);
        text.len() as int
    }
}

/// What was split, joined again, is the text; it was split at the first separator,
/// and left whole only where there is none.
pub proof fn splitting_loses_nothing(
    text: &str,
    separator: char,
    split: Option<(&str, &str)>,
)
    requires
        call_ensures(split_once, (text, separator), split),
    ensures
        split matches Some(both) ==> text@ == both.0@ + seq![separator] + both.1@
            && !both.0@.contains(separator),
        split is None ==> !text@.contains(separator),
        text@.contains(separator) ==> split is Some,
{
    parts_join_to_the_text(text@, separator);
}

/// Two texts are the same if and only if they have the same length and the same
/// character at every place.
pub proof fn same_texts_agree_everywhere(left: &str, right: &str, same: bool)
    requires
        call_ensures(same_text, (left, right), same),
    ensures
        same <==> left@.len() == right@.len() && forall|i: int|
            0 <= i < left@.len() ==> #[trigger] left@[i] == right@[i],
{
    if left@.len() == right@.len() && forall|i: int|
        0 <= i < left@.len() ==> #[trigger] left@[i] == right@[i] {
        assert(left@ =~= right@);
    }
}

/// The value of a numeral in the given base, with letters for the digits from ten.
pub open spec fn numeral_value(text: Seq<char>, base: int) -> int
    decreases text.len(),
{
    if text.len() == 0 {
        0
    } else {
        let c = text.last();
        numeral_value(text.drop_last(), base) * base + (if c >= 'A' {
            c as int - 'A' as int + 10
        } else {
            c as int - '0' as int
        })
    }
}

/// A decimal text is made of digits, has no leading zero, and its value is the
/// number.
pub proof fn a_decimal_reads_back(value: u32, text: String)
    requires
        call_ensures(decimal_text, (value,), text),
    ensures
        numeral_value(text@, 10) == value,
        forall|i: int| 0 <= i < text@.len() ==> '0' <= #[trigger] text@[i] <= '9',
        text@.len() >= 1,
        text@.len() > 1 ==> text@[0] != '0',
{
    lemma_decimal(value as nat);
}

proof fn lemma_decimal(value: nat)
    ensures
        numeral_value(decimal(value), 10) == value,
        forall|i: int| 0 <= i < decimal(value).len() ==> '0' <= #[trigger] decimal(value)[i] <= '9',
        decimal(value).len() >= 1,
        value > 0 ==> decimal(value)[0] != '0',
    decreases value,
{
    reveal_with_fuel(numeral_value, 2);
    if value < 10 {
        assert(decimal(value).drop_last() == Seq::<char>::empty());
    } else {
        lemma_decimal(value / 10);
        assert(decimal(value).drop_last() == decimal(value / 10));
    }
}

/// Eight hexadecimal digits, small letters left out, have the number as their value.
pub proof fn a_hexadecimal_reads_back(value: u32, text: String)
    requires
        call_ensures(hex8_text, (value,), text),
    ensures
        text@.len() == 8,
        numeral_value(text@, 16) == value,
        forall|i: int|
            0 <= i < 8 ==> '0' <= #[trigger] text@[i] <= '9' || 'A' <= text@[i] <= 'F',
{
    lemma_hex(value as nat, 8);
    assert(pow16(8) == 0x1_0000_0000) by {
        reveal_with_fuel(pow16, 9);
    }
}

spec fn pow16(digits: nat) -> nat
    decreases digits,
{
    if digits == 0 {
        1
    } else {
        16 * pow16((digits - 1) as nat)
    }
}

proof fn lemma_hex(value: nat, digits: nat)
    ensures
        hex(value, digits).len() == digits,
        value < pow16(digits) ==> numeral_value(hex(value, digits), 16) == value,
        forall|i: int|
            0 <= i < digits ==> '0' <= #[trigger] hex(value, digits)[i] <= '9' || 'A' <= hex(
                value,
                digits,
            )[i] <= 'F',
    decreases digits,
{
    if digits > 0 {
        let high = hex(value / 16, (digits - 1) as nat);
        lemma_hex(value / 16, (digits - 1) as nat);
        assert(hex(value, digits).drop_last() == high);
        assert(hex(value, digits).last() == hex_digit(value % 16));
        if value < pow16(digits) {
            assert(value / 16 < pow16((digits - 1) as nat));
        }
    }
}

} // verus!

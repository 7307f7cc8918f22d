//! Text as sequences of characters: the conversions from and to strings,
//! numbers in decimal and hexadecimal, and the filling of a template.

use vstd::prelude::*;

verus! {

/// The characters of `s`.
pub fn chars_of(s: &str) -> (chars: Vec<char>)
    ensures
        chars@ == s@,
{
    let len = s.unicode_len();
    let mut chars: Vec<char> = Vec::new();
    let mut i: usize = 0;
    while i < len
        invariant
            len == s@.len(),
            i <= len,
            chars@ == s@.subrange(0, i as int),
        decreases len - i,
    {
        chars.push(s.get_char(i));
        assert(chars@ =~= s@.subrange(0, i + 1));
        i += 1;
    }
    assert(chars@ =~= s@);
    chars
}

/// The string made of `chars`. Calls `String::from_iter`, which makes a
/// string of the characters that an iterator yields, in order.
#[verifier::external_body]
pub(crate) fn string_of(chars: &Vec<char>) -> (s: String)
    ensures
        s@ == chars@,
{
    String::from_iter(chars.iter())
}

/// Appends the characters of `tail` to `text`.
pub fn append(text: &mut Vec<char>, tail: &Vec<char>)
    ensures
        final(text)@ == old(text)@ + tail@,
{
    let mut i: usize = 0;
    while i < tail.len()
        invariant
            i <= tail@.len(),
            text@ == old(text)@ + tail@.subrange(0, i as int),
        decreases tail@.len() - i,
    {
        text.push(tail[i]);
        assert(text@ =~= old(text)@ + tail@.subrange(0, i + 1));
        i += 1;
    }
    assert(tail@.subrange(0, tail@.len() as int) =~= tail@);
}

/// Whether `text` is the word `word`.
pub fn is_word(text: &Vec<char>, word: &str) -> (same: bool)
    ensures
        same == (text@ == word@),
{
    let len = word.unicode_len();
    if text.len() != len {
        return false;
    }
    let mut i: usize = 0;
    while i < len
        invariant
            len == word@.len(),
            len == text@.len(),
            i <= len,
            forall|k: int| 0 <= k < i ==> text@[k] == word@[k],
        decreases len - i,
    {
        if text[i] != word.get_char(i) {
            return false;
        }
        i += 1;
    }
    assert(text@ =~= word@);
    true
}

/// The digit for `d`, 0 to 15, upper case above 9.
pub open spec fn hex_char(d: int) -> char {
    if d == 0 {
        '0'
    } else if d == 1 {
        '1'
    } else if d == 2 {
        '2'
    } else if d == 3 {
        '3'
    } else if d == 4 {
        '4'
    } else if d == 5 {
        '5'
    } else if d == 6 {
        '6'
    } else if d == 7 {
        '7'
    } else if d == 8 {
        '8'
    } else if d == 9 {
        '9'
    } else if d == 10 {
        'A'
    } else if d == 11 {
        'B'
    } else if d == 12 {
        'C'
    } else if d == 13 {
        'D'
    } else if d == 14 {
        'E'
    } else {
        'F'
    }
}

/// `v` as two hexadecimal digits.
pub open spec fn hex2(v: u8) -> Seq<char> {
    seq![hex_char(v as int / 16), hex_char(v as int % 16)]
}

/// `v` as four hexadecimal digits.
pub open spec fn hex4(v: u16) -> Seq<char> {
    seq![
        hex_char(v as int / 4096),
        hex_char((v as int / 256) % 16),
        hex_char((v as int / 16) % 16),
        hex_char(v as int % 16),
    ]
}

/// `n`, at most 999, in decimal without leading zeros.
pub open spec fn decimal(n: int) -> Seq<char> {
    if n >= 100 {
        seq![hex_char(n / 100), hex_char((n / 10) % 10), hex_char(n % 10)]
    } else if n >= 10 {
        seq![hex_char(n / 10), hex_char(n % 10)]
    } else {
        seq![hex_char(n)]
    }
}

/// The byte `e` read as a signed number, in decimal.
pub open spec fn signed_decimal(e: u8) -> Seq<char> {
    if e >= 128 {
        seq!['-'] + decimal(256 - e)
    } else {
        decimal(e as int)
    }
}

/// The digit for `d`.
pub fn hex_digit(d: u8) -> (c: char)
    requires
        d < 16,
    ensures
        c == hex_char(d as int),
{
    match d {
        0 => '0',
        1 => '1',
        2 => '2',
        3 => '3',
        4 => '4',
        5 => '5',
        6 => '6',
        7 => '7',
        8 => '8',
        9 => '9',
        10 => 'A',
        11 => 'B',
        12 => 'C',
        13 => 'D',
        14 => 'E',
        _ => 'F',
    }
}

/// Appends `v` as two hexadecimal digits.
pub fn push_hex2(text: &mut Vec<char>, v: u8)
    ensures
        final(text)@ == old(text)@ + hex2(v),
{
    text.push(hex_digit(v / 16));
    text.push(hex_digit(v % 16));
    assert(text@ =~= old(text)@ + hex2(v));
}

/// Appends `v` as four hexadecimal digits.
pub fn push_hex4(text: &mut Vec<char>, v: u16)
    ensures
        final(text)@ == old(text)@ + hex4(v),
{
    text.push(hex_digit((v / 4096) as u8));
    text.push(hex_digit(((v / 256) % 16) as u8));
    text.push(hex_digit(((v / 16) % 16) as u8));
    text.push(hex_digit((v % 16) as u8));
    assert(text@ =~= old(text)@ + hex4(v));
}

/// Appends `n` in decimal.
pub fn push_decimal(text: &mut Vec<char>, n: u16)
    requires
        n <= 999,
    ensures
        final(text)@ == old(text)@ + decimal(n as int),
{
    if n >= 100 {
        text.push(hex_digit((n / 100) as u8));
    }
    if n >= 10 {
        text.push(hex_digit(((n / 10) % 10) as u8));
    }
    text.push(hex_digit((n % 10) as u8));
    assert(text@ =~= old(text)@ + decimal(n as int));
}

/// Appends the byte `e`, read as a signed number, in decimal.
pub fn push_signed(text: &mut Vec<char>, e: u8)
    ensures
        final(text)@ == old(text)@ + signed_decimal(e),
{
    if e >= 128 {
        text.push('-');
        push_decimal(text, 256 - e as u16);
        assert(text@ =~= old(text)@ + signed_decimal(e));
    } else {
        push_decimal(text, e as u16);
    }
}

/// Whether the slot `{}` starts at position `i` of `template`.
pub open spec fn slot_at(template: Seq<char>, i: int) -> bool {
    0 <= i && i + 1 < template.len() && template[i] == '{' && template[i + 1] == '}'
}

/// `template` with its first slot `{}`, if it has one, replaced by
/// `value`.
pub open spec fn filled(template: Seq<char>, value: Seq<char>) -> Seq<char>
    decreases template.len(),
{
    if template.len() < 2 {
        template
    } else if slot_at(template, 0) {
        value + template.skip(2)
    } else {
        seq![template[0]] + filled(template.skip(1), value)
    }
}

/// Filling a template whose first slot is at `i`: the text before the
/// slot stays, the slot becomes `value`, the text after it stays.
pub proof fn lemma_filled_at(template: Seq<char>, value: Seq<char>, i: int)
    requires
        slot_at(template, i),
        forall|k: int| 0 <= k < i ==> !slot_at(template, k),
    ensures
        filled(template, value) == template.take(i) + value + template.skip(i + 2),
    decreases i,
{
    if i == 0 {
        assert(template.take(0) + value + template.skip(2) =~= value + template.skip(2));
    } else {
        let rest = template.skip(1);
        assert(!slot_at(template, 0));
        assert(slot_at(rest, i - 1));
        assert forall|k: int| 0 <= k < i - 1 implies !slot_at(rest, k) by {
            assert(!slot_at(template, k + 1));
        }
        lemma_filled_at(rest, value, i - 1);
        assert(seq![template[0]] + (rest.take(i - 1) + value + rest.skip(i + 1)) =~= template.take(
            i,
        ) + value + template.skip(i + 2));
    }
}

/// Filling a template without a slot changes nothing.
pub proof fn lemma_filled_none(template: Seq<char>, value: Seq<char>)
    requires
        forall|k: int| 0 <= k < template.len() ==> !slot_at(template, k),
    ensures
        filled(template, value) == template,
    decreases template.len(),
{
    if template.len() >= 2 {
        let rest = template.skip(1);
        assert(!slot_at(template, 0));
        assert forall|k: int| 0 <= k < rest.len() implies !slot_at(rest, k) by {
            assert(!slot_at(template, k + 1));
        }
        lemma_filled_none(rest, value);
        assert(seq![template[0]] + rest =~= template);
    }
}

/// Replaces the first slot `{}` of `template`, if it has one, by `value`.
pub fn fill(template: &Vec<char>, value: &Vec<char>) -> (text: Vec<char>)
    ensures
        text@ == filled(template@, value@),
{
    let len = template.len();
    let mut text: Vec<char> = Vec::new();
    let mut i: usize = 0;
    while i < len
        invariant
            len == template@.len(),
            i <= len,
            text@ == template@.take(i as int),
            forall|k: int| 0 <= k < i ==> !slot_at(template@, k),
        decreases len - i,
    {
        if i + 1 < len && template[i] == '{' && template[i + 1] == '}' {
            append(&mut text, value);
            let mut j: usize = i + 2;
            while j < len
                invariant
                    len == template@.len(),
                    i + 2 <= j <= len,
                    text@ == template@.take(i as int) + value@ + template@.subrange(
                        i + 2,
                        j as int,
                    ),
                decreases len - j,
            {
                text.push(template[j]);
                assert(text@ =~= template@.take(i as int) + value@ + template@.subrange(
                    i + 2,
                    j + 1,
                ));
                j += 1;
            }
            proof {
                assert(template@.subrange(i + 2, len as int) =~= template@.skip(i + 2));
                lemma_filled_at(template@, value@, i as int);
            }
            return text;
        }
        text.push(template[i]);
        assert(text@ =~= template@.take(i + 1));
        i += 1;
    }
    proof {
        assert(template@.take(len as int) =~= template@);
        lemma_filled_none(template@, value@);
    }
    text
}

} // verus!

//! Text as the input method, the dialogs and the terminal see it.
//!
//! A text is a sequence of characters. Byte offsets count its UTF-8 encoding,
//! input method offsets count its UTF-16 encoding.

use core::ops::Range;
use vstd::prelude::*;

verus! {

/// Whether a character has the Unicode property `White_Space`.
pub open spec fn is_whitespace(c: char) -> bool {
    let code = c as u32;
    ||| 0x9 <= code <= 0xd
    ||| code == 0x20
    ||| code == 0x85
    ||| code == 0xa0
    ||| code == 0x1680
    ||| 0x2000 <= code <= 0x200a
    ||| code == 0x2028
    ||| code == 0x2029
    ||| code == 0x202f
    ||| code == 0x205f
    ||| code == 0x3000
}

/// `char::is_whitespace`: tells whether a character has the Unicode property
/// `White_Space`, that is, whether it is one of the listed characters.
pub assume_specification[ char::is_whitespace ](c: char) -> (b: bool)
    ensures
        b == is_whitespace(c),
;

/// `String::push` appends one character and changes nothing else.
pub assume_specification[ String::push ](s: &mut String, c: char)
    ensures
        final(s)@ == old(s)@.push(c),
;

/// How many bytes the UTF-8 encoding of a character takes.
pub open spec fn utf8_width(c: char) -> nat {
    if c as u32 <= 0x7f {
        1
    } else if c as u32 <= 0x7ff {
        2
    } else if c as u32 <= 0xffff {
        3
    } else {
        4
    }
}

/// How many units the UTF-16 encoding of a character takes.
pub open spec fn utf16_width(c: char) -> nat {
    if c as u32 <= 0xffff {
        1
    } else {
        2
    }
}

/// How many bytes the UTF-8 encoding of a text takes.
pub open spec fn byte_len(text: Seq<char>) -> nat
    decreases text.len(),
{
    if text.len() == 0 {
        0
    } else {
        byte_len(text.drop_last()) + utf8_width(text.last())
    }
}

/// How many units the UTF-16 encoding of a text takes.
pub open spec fn unit_len(text: Seq<char>) -> nat
    decreases text.len(),
{
    if text.len() == 0 {
        0
    } else {
        unit_len(text.drop_last()) + utf16_width(text.last())
    }
}

pub fn char_len_utf8(c: char) -> (width: usize)
    ensures
        width == utf8_width(c),
        1 <= width <= 4,
{
    let code: u32 = c as u32;
    if code <= 0x7f {
        1
    } else if code <= 0x7ff {
        2
    } else if code <= 0xffff {
        3
    } else {
        4
    }
}

pub fn char_len_utf16(c: char) -> (width: usize)
    ensures
        width == utf16_width(c),
        1 <= width <= 2,
{
    let code: u32 = c as u32;
    if code <= 0xffff {
        1
    } else {
        2
    }
}

/// The characters of a text.
pub fn chars_of(text: &str) -> (chars: Vec<char>)
    ensures
        chars@ == text@,
{
    let mut chars: Vec<char> = Vec::new();
    for c in it: text.chars()
        invariant
            chars@ == it.seq().take(it.index()),
            it.seq() == text@,
    {
        chars.push(c);
    }
    chars
}

/// The text made of the given characters.
pub fn text_of(chars: &[char]) -> (text: String)
    ensures
        text@ == chars@,
{
    let mut text: String = String::new();
    let mut i: usize = 0;
    while i < chars.len()
        invariant
            i <= chars.len(),
            text@ == chars@.take(i as int),
        decreases chars.len() - i,
    {
        text.push(chars[i]);
        i += 1;
        assert(chars@.take(i as int) =~= chars@.take(i - 1).push(chars@[i - 1]));
    }
    assert(chars@.take(i as int) =~= chars@);
    text
}

proof fn lemma_byte_len_front(text: Seq<char>)
    requires
        text.len() > 0,
    ensures
        byte_len(text) == utf8_width(text[0]) + byte_len(text.drop_first()),
    decreases text.len(),
{
    if text.len() == 1 {
        assert(text.drop_last() =~= Seq::<char>::empty());
        assert(text.drop_first() =~= Seq::<char>::empty());
    } else {
        lemma_byte_len_front(text.drop_last());
        assert(text.drop_last().drop_first() =~= text.drop_first().drop_last());
        assert(text.drop_first().last() == text.last());
    }
}

/// The bytes of a text are those of its parts.
pub proof fn lemma_byte_len_concat(a: Seq<char>, b: Seq<char>)
    ensures
        byte_len(a + b) == byte_len(a) + byte_len(b),
    decreases b.len(),
{
    if b.len() == 0 {
        assert(a + b =~= a);
    } else {
        assert((a + b).drop_last() =~= a + b.drop_last());
        lemma_byte_len_concat(a, b.drop_last());
    }
}

/// The units of a text are those of its parts.
pub proof fn lemma_unit_len_concat(a: Seq<char>, b: Seq<char>)
    ensures
        unit_len(a + b) == unit_len(a) + unit_len(b),
    decreases b.len(),
{
    if b.len() == 0 {
        assert(a + b =~= a);
    } else {
        assert((a + b).drop_last() =~= a + b.drop_last());
        lemma_unit_len_concat(a, b.drop_last());
    }
}

proof fn lemma_encoded_len(text: Seq<char>)
    ensures
        vstd::utf8::encode_utf8(text).len() == byte_len(text),
    decreases text.len(),
{
    if text.len() > 0 {
        lemma_encoded_len(text.drop_first());
        lemma_byte_len_front(text);
        vstd::utf8::char_is_scalar(text[0]);
        assert(vstd::utf8::encode_scalar(text[0] as u32).len() == utf8_width(text[0]));
    }
}

/// A text has no more characters or units than bytes.
pub proof fn lemma_len_bounds(text: Seq<char>)
    ensures
        text.len() <= unit_len(text) <= byte_len(text),
    decreases text.len(),
{
    if text.len() > 0 {
        lemma_len_bounds(text.drop_last());
    }
}

/// Longer prefixes take more units and more bytes.
pub proof fn lemma_prefix_monotonic(text: Seq<char>, i: int, j: int)
    requires
        0 <= i < j <= text.len(),
    ensures
        unit_len(text.take(i)) < unit_len(text.take(j)),
        byte_len(text.take(i)) < byte_len(text.take(j)),
    decreases j,
{
    assert(text.take(j).drop_last() =~= text.take(j - 1));
    if i < j - 1 {
        lemma_prefix_monotonic(text, i, j - 1);
    }
}

/// The number of bytes of a text; a text that exists fits in memory.
pub fn text_byte_len(text: &str) -> (len: usize)
    ensures
        len == byte_len(text@),
{
    proof {
        lemma_encoded_len(text@);
    }
    text.as_bytes().len()
}

/// The number of UTF-16 units of a text.
pub fn utf16_len(text: &str) -> (len: usize)
    ensures
        len == unit_len(text@),
{
    let chars = chars_of(text);
    let total: usize = text_byte_len(text);
    proof {
        lemma_len_bounds(text@);
    }
    let mut units: usize = 0;
    let mut i: usize = 0;
    while i < chars.len()
        invariant
            i <= chars.len(),
            chars@ == text@,
            units == unit_len(text@.take(i as int)),
            unit_len(text@) <= total,
        decreases chars.len() - i,
    {
        proof {
            assert(text@.take(i + 1).drop_last() =~= text@.take(i as int));
            assert(text@.take(i + 1) + text@.skip(i + 1) =~= text@);
            lemma_unit_len_concat(text@.take(i + 1), text@.skip(i + 1));
        }
        units += char_len_utf16(chars[i]);
        i += 1;
    }
    assert(text@.take(i as int) =~= text@);
    units
}

/// The length of the longest prefix that takes at most `offset` units.
pub open spec fn chars_within_units(text: Seq<char>, offset: nat) -> nat
    decreases text.len(),
{
    if text.len() == 0 || unit_len(text) <= offset {
        text.len()
    } else {
        chars_within_units(text.drop_last(), offset)
    }
}

/// The length of the shortest prefix that takes at least `offset` units, or
/// of the whole text where it takes fewer.
pub open spec fn chars_covering_units(text: Seq<char>, offset: nat) -> nat
    decreases text.len(),
{
    if text.len() == 0 || unit_len(text.drop_last()) < offset {
        text.len()
    } else {
        chars_covering_units(text.drop_last(), offset)
    }
}

proof fn lemma_chars_within_units(text: Seq<char>, offset: nat, k: int)
    requires
        0 <= k <= text.len(),
        unit_len(text.take(k)) <= offset,
        k < text.len() ==> offset < unit_len(text.take(k + 1)),
    ensures
        chars_within_units(text, offset) == k,
    decreases text.len(),
{
    if k == text.len() {
        assert(text.take(k) =~= text);
    } else {
        if k + 1 < text.len() {
            lemma_prefix_monotonic(text, k + 1, text.len() as int);
        }
        assert(text.take(text.len() as int) =~= text);
        assert(text.drop_last().take(k) =~= text.take(k));
        if k < text.len() - 1 {
            assert(text.drop_last().take(k + 1) =~= text.take(k + 1));
        }
        lemma_chars_within_units(text.drop_last(), offset, k);
    }
}

proof fn lemma_chars_covering_units(text: Seq<char>, offset: nat, k: int)
    requires
        0 <= k <= text.len(),
        k < text.len() ==> offset <= unit_len(text.take(k)),
        k > 0 ==> unit_len(text.take(k - 1)) < offset,
    ensures
        chars_covering_units(text, offset) == k,
    decreases text.len(),
{
    if text.len() > 0 {
        assert(text.drop_last() =~= text.take(text.len() - 1));
        if k < text.len() {
            if k < text.len() - 1 {
                lemma_prefix_monotonic(text, k, text.len() - 1);
            }
            assert(text.drop_last().take(k) =~= text.take(k));
            if k > 0 {
                assert(text.drop_last().take(k - 1) =~= text.take(k - 1));
            }
            lemma_chars_covering_units(text.drop_last(), offset, k);
        }
    }
}

/// The byte at which the character that holds unit `offset` starts, or the
/// end of the text where there is none.
pub fn utf16_offset_to_byte(text: &str, offset: usize) -> (byte: usize)
    ensures
        byte == byte_len(text@.take(chars_within_units(text@, offset as nat) as int)),
        byte <= byte_len(text@),
{
    let chars = chars_of(text);
    let total: usize = text_byte_len(text);
    let ghost whole = text@;
    let mut units: usize = 0;
    let mut byte: usize = 0;
    let mut i: usize = 0;
    proof {
        lemma_len_bounds(whole);
    }
    while i < chars.len()
        invariant
            i <= chars.len(),
            chars@ == whole,
            whole == text@,
            units == unit_len(whole.take(i as int)),
            byte == byte_len(whole.take(i as int)),
            units <= offset,
            byte <= byte_len(whole),
            unit_len(whole) <= total,
            byte_len(whole) == total,
        decreases chars.len() - i,
    {
        let width: usize = char_len_utf16(chars[i]);
        let bytes: usize = char_len_utf8(chars[i]);
        proof {
            assert(whole.take(i + 1).drop_last() =~= whole.take(i as int));
            assert(whole.take(i + 1) + whole.skip(i + 1) =~= whole);
            lemma_unit_len_concat(whole.take(i + 1), whole.skip(i + 1));
            lemma_byte_len_concat(whole.take(i + 1), whole.skip(i + 1));
        }
        if offset < units + width {
            proof {
                lemma_chars_within_units(whole, offset as nat, i as int);
            }
            return byte;
        }
        units += width;
        byte += bytes;
        i += 1;
    }
    proof {
        lemma_chars_within_units(whole, offset as nat, i as int);
    }
    byte
}

/// The byte after the character that holds the unit before `offset`, or the
/// end of the text where there is none.
pub fn utf16_offset_to_byte_end(text: &str, offset: usize) -> (byte: usize)
    ensures
        byte == byte_len(text@.take(chars_covering_units(text@, offset as nat) as int)),
        byte <= byte_len(text@),
{
    let chars = chars_of(text);
    let total: usize = text_byte_len(text);
    let ghost whole = text@;
    let mut units: usize = 0;
    let mut byte: usize = 0;
    let mut i: usize = 0;
    proof {
        lemma_len_bounds(whole);
    }
    while i < chars.len() && units < offset
        invariant
            i <= chars.len(),
            chars@ == whole,
            whole == text@,
            units == unit_len(whole.take(i as int)),
            byte == byte_len(whole.take(i as int)),
            i > 0 ==> unit_len(whole.take(i - 1)) < offset,
            byte <= byte_len(whole),
            unit_len(whole) <= total,
            byte_len(whole) == total,
        decreases chars.len() - i,
    {
        proof {
            assert(whole.take(i + 1).drop_last() =~= whole.take(i as int));
            assert(whole.take(i + 1) + whole.skip(i + 1) =~= whole);
            lemma_unit_len_concat(whole.take(i + 1), whole.skip(i + 1));
            lemma_byte_len_concat(whole.take(i + 1), whole.skip(i + 1));
        }
        units += char_len_utf16(chars[i]);
        byte += char_len_utf8(chars[i]);
        i += 1;
    }
    proof {
        lemma_chars_covering_units(whole, offset as nat, i as int);
    }
    byte
}

/// A range cut to the units that exist, and empty where it ran backwards.
pub open spec fn normalized_range(range: Range<usize>, length: nat) -> (nat, nat) {
    let start = if range.start <= length { range.start as nat } else { length };
    let end = if range.end <= length { range.end as nat } else { length };
    (if start <= end { start } else { end }, end)
}

pub fn normalize_utf16_range(range: Range<usize>, length: usize) -> (normalized: Range<usize>)
    ensures
        (normalized.start as nat, normalized.end as nat) == normalized_range(range, length as nat),
        normalized.start <= normalized.end <= length,
{
    let start: usize = if range.start <= length { range.start } else { length };
    let end: usize = if range.end <= length { range.end } else { length };
    if start <= end {
        start..end
    } else {
        end..end
    }
}

/// Reading back a normalized range never cuts a character: its start and end
/// are character boundaries, in order, inside the text.
pub proof fn law_normalized_ranges_are_readable(text: Seq<char>, start: nat, end: nat)
    requires
        start <= end,
    ensures
        chars_within_units(text, start) <= chars_covering_units(text, end) <= text.len(),
{
    lemma_floor_bounds(text, start);
    lemma_ceiling_bounds(text, end);
    let low = chars_within_units(text, start) as int;
    let high = chars_covering_units(text, end) as int;
    if high < low {
        lemma_prefix_monotonic(text, high, low);
    }
}

proof fn lemma_floor_bounds(text: Seq<char>, offset: nat)
    ensures
        chars_within_units(text, offset) <= text.len(),
        unit_len(text.take(chars_within_units(text, offset) as int)) <= offset,
    decreases text.len(),
{
    if text.len() == 0 || unit_len(text) <= offset {
        assert(text.take(text.len() as int) =~= text);
    } else {
        lemma_floor_bounds(text.drop_last(), offset);
        let k = chars_within_units(text, offset) as int;
        assert(text.drop_last().take(k) =~= text.take(k));
    }
}

proof fn lemma_ceiling_bounds(text: Seq<char>, offset: nat)
    ensures
        chars_covering_units(text, offset) <= text.len(),
        chars_covering_units(text, offset) < text.len() ==> offset <= unit_len(
            text.take(chars_covering_units(text, offset) as int),
        ),
    decreases text.len(),
{
    if text.len() > 0 && unit_len(text.drop_last()) >= offset {
        lemma_ceiling_bounds(text.drop_last(), offset);
        let k = chars_covering_units(text, offset) as int;
        assert(text.drop_last().take(k) =~= text.take(k));
        if k == text.len() - 1 {
            assert(text.drop_last() =~= text.take(k));
        }
    }
}

/// The number of characters of the longest prefix that takes at most `offset`
/// units.
pub fn char_index_within(chars: &Vec<char>, offset: usize) -> (index: usize)
    ensures
        index == chars_within_units(chars@, offset as nat),
        index <= chars.len(),
{
    let ghost whole = chars@;
    let mut units: usize = 0;
    let mut i: usize = 0;
    assert(whole.take(0) =~= Seq::<char>::empty());
    while i < chars.len()
        invariant
            i <= chars.len(),
            chars@ == whole,
            units == unit_len(whole.take(i as int)),
            units <= offset,
        decreases chars.len() - i,
    {
        let width: usize = char_len_utf16(chars[i]);
        assert(whole.take(i + 1).drop_last() =~= whole.take(i as int));
        if offset - units < width {
            proof {
                lemma_chars_within_units(whole, offset as nat, i as int);
            }
            return i;
        }
        units += width;
        i += 1;
    }
    proof {
        lemma_chars_within_units(whole, offset as nat, i as int);
    }
    i
}

/// The number of characters of the shortest prefix that takes at least
/// `offset` units, or of the whole text.
pub fn char_index_covering(chars: &Vec<char>, offset: usize) -> (index: usize)
    ensures
        index == chars_covering_units(chars@, offset as nat),
        index <= chars.len(),
{
    let ghost whole = chars@;
    let mut units: usize = 0;
    let mut i: usize = 0;
    assert(whole.take(0) =~= Seq::<char>::empty());
    while i < chars.len()
        invariant
            i <= chars.len(),
            chars@ == whole,
            units == unit_len(whole.take(i as int)),
            i > 0 ==> unit_len(whole.take(i - 1)) < offset,
            units <= offset,
        decreases chars.len() - i,
    {
        if units >= offset {
            proof {
                lemma_chars_covering_units(whole, offset as nat, i as int);
            }
            return i;
        }
        let width: usize = char_len_utf16(chars[i]);
        assert(whole.take(i + 1).drop_last() =~= whole.take(i as int));
        if offset - units < width {
            proof {
                assert(unit_len(whole.take(i + 1)) == units + width);
                assert(unit_len(whole.take(i as int)) < offset);
                if i + 1 < whole.len() {
                    assert(offset <= unit_len(whole.take(i + 1)));
                }
                lemma_chars_covering_units(whole, offset as nat, i + 1);
            }
            return i + 1;
        }
        units += width;
        i += 1;
    }
    proof {
        lemma_chars_covering_units(whole, offset as nat, i as int);
    }
    i
}

/// A text without the whitespace at its start.
pub open spec fn trimmed_start(text: Seq<char>) -> Seq<char>
    decreases text.len(),
{
    if text.len() > 0 && is_whitespace(text[0]) {
        trimmed_start(text.drop_first())
    } else {
        text
    }
}

/// A text without the whitespace at its end.
pub open spec fn trimmed_end(text: Seq<char>) -> Seq<char>
    decreases text.len(),
{
    if text.len() > 0 && is_whitespace(text.last()) {
        trimmed_end(text.drop_last())
    } else {
        text
    }
}

/// A text without the whitespace around it.
pub open spec fn trimmed(text: Seq<char>) -> Seq<char> {
    trimmed_end(trimmed_start(text))
}

/// The text without the whitespace around it.
pub fn trim_chars(text: &Vec<char>) -> (trim: Vec<char>)
    ensures
        trim@ == trimmed(text@),
{
    let mut start: usize = 0;
    assert(text@.skip(0) =~= text@);
    while start < text.len() && text[start].is_whitespace()
        invariant
            start <= text.len(),
            trimmed_start(text@.skip(start as int)) == trimmed_start(text@),
        decreases text.len() - start,
    {
        assert(text@.skip(start as int).drop_first() =~= text@.skip(start + 1));
        start += 1;
    }
    assert(trimmed_start(text@) == text@.skip(start as int));
    let mut end: usize = text.len();
    assert(text@.subrange(start as int, end as int) =~= text@.skip(start as int));
    while end > start && text[end - 1].is_whitespace()
        invariant
            start <= end <= text.len(),
            trimmed_end(text@.subrange(start as int, end as int)) == trimmed(text@),
        decreases end - start,
    {
        assert(text@.subrange(start as int, end as int).drop_last() =~= text@.subrange(
            start as int,
            end - 1,
        ));
        end -= 1;
    }
    copy_chars(text, start, end)
}

/// The characters from `from` up to `to`.
pub fn copy_chars(text: &Vec<char>, from: usize, to: usize) -> (part: Vec<char>)
    requires
        from <= to <= text.len(),
    ensures
        part@ == text@.subrange(from as int, to as int),
{
    let mut part: Vec<char> = Vec::new();
    let mut i: usize = from;
    while i < to
        invariant
            from <= i <= to <= text.len(),
            part@ =~= text@.subrange(from as int, i as int),
        decreases to - i,
    {
        part.push(text[i]);
        i += 1;
    }
    part
}

/// The characters before `from`, then others, then those after `to`.
pub fn splice_chars(text: &Vec<char>, from: usize, to: usize, with: &Vec<char>) -> (spliced: Vec<
    char,
>)
    requires
        from <= to <= text.len(),
    ensures
        spliced@ == text@.take(from as int) + with@ + text@.skip(to as int),
{
    let mut spliced: Vec<char> = copy_chars(text, 0, from);
    let mut i: usize = 0;
    while i < with.len()
        invariant
            i <= with.len(),
            from <= text.len(),
            spliced@ =~= text@.take(from as int) + with@.take(i as int),
        decreases with.len() - i,
    {
        spliced.push(with[i]);
        i += 1;
    }
    assert(with@.take(i as int) =~= with@);
    let mut j: usize = to;
    while j < text.len()
        invariant
            from <= to <= j <= text.len(),
            spliced@ =~= text@.take(from as int) + with@ + text@.subrange(to as int, j as int),
        decreases text.len() - j,
    {
        spliced.push(text[j]);
        j += 1;
    }
    assert(text@.subrange(to as int, text.len() as int) =~= text@.skip(to as int));
    spliced
}

/// Trimming twice trims once, and what is left has no whitespace around it.
pub proof fn law_trimming_is_idempotent(text: Seq<char>)
    ensures
        trimmed(trimmed(text)) == trimmed(text),
        trimmed(text).len() > 0 ==> !is_whitespace(trimmed(text)[0]) && !is_whitespace(
            trimmed(text).last(),
        ),
{
    let start = trimmed_start(text);
    lemma_trimmed_start(text);
    lemma_trimmed_end(start);
}

proof fn lemma_trimmed_start(text: Seq<char>)
    ensures
        trimmed_start(text).len() > 0 ==> !is_whitespace(trimmed_start(text)[0]),
    decreases text.len(),
{
    if text.len() > 0 && is_whitespace(text[0]) {
        lemma_trimmed_start(text.drop_first());
    }
}

proof fn lemma_trimmed_end(text: Seq<char>)
    ensures
        trimmed_end(text).len() > 0 ==> !is_whitespace(trimmed_end(text).last())
            && trimmed_end(text)[0] == text[0],
        trimmed_end(text).len() <= text.len(),
    decreases text.len(),
{
    if text.len() > 0 && is_whitespace(text.last()) {
        lemma_trimmed_end(text.drop_last());
    }
}

/// The digit of a number below ten.
pub open spec fn digit_char(value: nat) -> char {
    (48 + value) as char
}

/// A number in decimal.
pub open spec fn decimal_chars(value: nat) -> Seq<char>
    decreases value,
{
    if value < 10 {
        seq![digit_char(value)]
    } else {
        decimal_chars(value / 10).push(digit_char(value % 10))
    }
}

/// A number in decimal.
pub fn decimal_text(value: usize) -> (text: String)
    ensures
        text@ == decimal_chars(value as nat),
    decreases value,
{
    let digit: u8 = 48 + (value % 10) as u8;
    if value < 10 {
        let mut text = String::new();
        text.push(digit as char);
        assert(text@ =~= decimal_chars(value as nat));
        text
    } else {
        let mut text = decimal_text(value / 10);
        text.push(digit as char);
        text
    }
}

/// Trimming takes away whitespace at both ends and nothing else.
pub proof fn law_trimming_removes_only_whitespace_around(text: Seq<char>)
    ensures
        exists|start: int, end: int|
            0 <= start <= end <= text.len() && trimmed(text) == #[trigger] text.subrange(start, end)
                && (forall|i: int|
                0 <= i < start || end <= i < text.len() ==> is_whitespace(#[trigger] text[i])),
{
    lemma_start_is_skipped(text);
    let front = trimmed_start(text);
    let start = text.len() - front.len();
    lemma_end_is_dropped(front);
    let end = start + trimmed_end(front).len();
    assert(trimmed(text) =~= text.subrange(start, end as int));
    assert forall|i: int| 0 <= i < start || end <= i < text.len() implies is_whitespace(
        #[trigger] text[i],
    ) by {
        if i >= end {
            assert(front[i - start] == text[i]);
        }
    }
}

proof fn lemma_start_is_skipped(text: Seq<char>)
    ensures
        trimmed_start(text).len() <= text.len(),
        trimmed_start(text) == text.skip(text.len() - trimmed_start(text).len()),
        forall|i: int|
            0 <= i < text.len() - trimmed_start(text).len() ==> is_whitespace(#[trigger] text[i]),
    decreases text.len(),
{
    if text.len() > 0 && is_whitespace(text[0]) {
        let rest = text.drop_first();
        lemma_start_is_skipped(rest);
        assert(trimmed_start(text) =~= text.skip(text.len() - trimmed_start(text).len()));
        assert forall|i: int| 0 <= i < text.len() - trimmed_start(text).len() implies is_whitespace(
            #[trigger] text[i],
        ) by {
            if i > 0 {
                assert(rest[i - 1] == text[i]);
            }
        }
    } else {
        assert(text.skip(0) =~= text);
    }
}

proof fn lemma_end_is_dropped(text: Seq<char>)
    ensures
        trimmed_end(text).len() <= text.len(),
        trimmed_end(text) == text.take(trimmed_end(text).len() as int),
        forall|i: int|
            trimmed_end(text).len() <= i < text.len() ==> is_whitespace(#[trigger] text[i]),
    decreases text.len(),
{
    if text.len() > 0 && is_whitespace(text.last()) {
        let front = text.drop_last();
        lemma_end_is_dropped(front);
        assert(trimmed_end(text) =~= text.take(trimmed_end(text).len() as int));
        assert forall|i: int| trimmed_end(text).len() <= i < text.len() implies is_whitespace(
            #[trigger] text[i],
        ) by {
            if i < front.len() {
                assert(front[i] == text[i]);
            }
        }
    } else {
        assert(text.take(text.len() as int) =~= text);
    }
}

/// The number that decimal digits stand for.
pub open spec fn number_of_chars(digits: Seq<char>) -> int
    decreases digits.len(),
{
    if digits.len() == 0 {
        0
    } else {
        10 * number_of_chars(digits.drop_last()) + (digits.last() as int - 48)
    }
}

/// The digits of a number read as that number.
pub proof fn law_decimal_texts_read_as_their_number(value: nat)
    ensures
        number_of_chars(decimal_chars(value)) == value,
        decimal_chars(value).len() > 0,
    decreases value,
{
    let digits = decimal_chars(value);
    if value < 10 {
        assert(digits.drop_last() =~= Seq::<char>::empty());
        assert(number_of_chars(digits.drop_last()) == 0);
    } else {
        law_decimal_texts_read_as_their_number(value / 10);
        assert(digits.drop_last() =~= decimal_chars(value / 10));
    }
}

/// Characters take as many bytes and units as their code points need, and texts
/// as many as their characters together.
pub proof fn law_texts_are_as_long_as_their_characters(text: Seq<char>, c: char)
    ensures
        byte_len(text.push(c)) == byte_len(text) + (if c as int <= 0x7f {
            1nat
        } else if c as int <= 0x7ff {
            2
        } else if c as int <= 0xffff {
            3
        } else {
            4
        }),
        unit_len(text.push(c)) == unit_len(text) + (if c as int <= 0xffff {
            1nat
        } else {
            2
        }),
        byte_len(Seq::empty()) == 0,
        unit_len(Seq::empty()) == 0,
{
    assert(text.push(c).drop_last() =~= text);
}

/// An offset in units leads to the last character boundary that is not behind
/// it, or to the first that is not before it.
pub proof fn law_offsets_lead_to_character_boundaries(text: Seq<char>, offset: nat)
    ensures
        ({
            let floor = chars_within_units(text, offset) as int;
            let ceiling = chars_covering_units(text, offset) as int;
            &&& floor <= text.len() && ceiling <= text.len()
            &&& unit_len(text.take(floor)) <= offset
            &&& floor < text.len() ==> unit_len(text.take(floor + 1)) > offset
            &&& ceiling < text.len() ==> unit_len(text.take(ceiling)) >= offset
            &&& ceiling > 0 ==> unit_len(text.take(ceiling - 1)) < offset
        }),
    decreases text.len(),
{
    assert(text.take(text.len() as int) =~= text);
    lemma_floor_bounds(text, offset);
    if text.len() > 0 {
        let front = text.drop_last();
        assert(text.take(text.len() - 1) =~= front);
        law_offsets_lead_to_character_boundaries(front, offset);
        let floor = chars_within_units(text, offset) as int;
        let ceiling = chars_covering_units(text, offset) as int;
        if floor < text.len() - 1 {
            assert(front.take(floor + 1) =~= text.take(floor + 1));
        }
        if ceiling < text.len() {
            assert(front.take(ceiling) =~= text.take(ceiling));
            if ceiling > 0 {
                assert(front.take(ceiling - 1) =~= text.take(ceiling - 1));
            }
            if ceiling == front.len() {
                assert(text.take(ceiling) =~= front);
            }
        }
    }
}

/// A range of units is cut to the text: its end first, then its start to its
/// end.
pub proof fn law_ranges_are_cut_to_the_text(range: Range<usize>, length: nat)
    ensures
        ({
            let (start, end) = normalized_range(range, length);
            &&& range.end <= length ==> end == range.end
            &&& range.end > length ==> end == length
            &&& range.start <= end ==> start == range.start
            &&& range.start > end ==> start == end
        }),
{
}

/// The characters that count as space: the control characters from the tab to
/// the carriage return, the next line, and the spaces and separators of all
/// widths.
pub proof fn law_space_is_told_by_its_code(c: char)
    ensures
        is_whitespace(c) <==> 0x09 <= c as int <= 0x0d || c as int == 0x20 || c as int == 0x85
            || c as int == 0xa0 || c as int == 0x1680 || 0x2000 <= c as int <= 0x200a || 0x2028
            <= c as int <= 0x2029 || c as int == 0x202f || c as int == 0x205f || c as int == 0x3000,
{
}

} // verus!

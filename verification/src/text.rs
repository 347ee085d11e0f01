//! Text in UTF-16, as the system takes it and gives it.

use vstd::prelude::*;

verus! {

/// The code units of one character: itself, or a surrogate pair where it takes more than
/// sixteen bits.
pub open spec fn utf16_char(c: char) -> Seq<u16> {
    let scalar = c as int;
    if scalar < 0x1_0000 {
        seq![scalar as u16]
    } else {
        seq![
            (0xd800 + (scalar - 0x1_0000) / 0x400) as u16,
            (0xdc00 + (scalar - 0x1_0000) % 0x400) as u16,
        ]
    }
}

/// The code units of a text.
pub open spec fn utf16(text: Seq<char>) -> Seq<u16>
    decreases text.len(),
{
    if text.len() == 0 {
        seq![]
    } else {
        utf16(text.drop_last()) + utf16_char(text.last())
    }
}

/// The code units before the first zero, or all where there is none.
pub open spec fn before_nul(units: Seq<u16>) -> Seq<u16>
    decreases units.len(),
{
    if units.len() == 0 || units.first() == 0 {
        seq![]
    } else {
        seq![units.first()] + before_nul(units.drop_first())
    }
}

/// Whether a code unit is the first half of a surrogate pair.
pub open spec fn is_high_surrogate(unit: u16) -> bool {
    0xd800 <= unit < 0xdc00
}

/// Whether a code unit is the second half of a surrogate pair.
pub open spec fn is_low_surrogate(unit: u16) -> bool {
    0xdc00 <= unit < 0xe000
}

/// The character that a surrogate pair stands for.
pub open spec fn paired_char(high: u16, low: u16) -> char {
    (0x1_0000 + (high - 0xd800) * 0x400 + (low - 0xdc00)) as char
}

/// The character that a code unit stands for which is in no pair: the replacement character for
/// one half of a pair.
pub open spec fn single_char(unit: u16) -> char {
    if is_high_surrogate(unit) || is_low_surrogate(unit) {
        '\u{fffd}'
    } else {
        unit as char
    }
}

/// The text of code units, from the first on: each surrogate pair is one character, and so is
/// each other unit.
pub open spec fn utf16_lossy(units: Seq<u16>) -> Seq<char>
    decreases units.len(),
{
    if units.len() == 0 {
        seq![]
    } else if units.len() > 1 && is_high_surrogate(units[0]) && is_low_surrogate(units[1]) {
        seq![paired_char(units[0], units[1])] + utf16_lossy(units.skip(2))
    } else {
        seq![single_char(units[0])] + utf16_lossy(units.skip(1))
    }
}

/// Calls [`String::from_utf16_lossy`], which decodes code units and puts the replacement
/// character in the place of each surrogate without its other half.
#[verifier::external_body]
fn from_utf16_lossy(units: &[u16]) -> (text: String)
    ensures
        text@ == utf16_lossy(units@),
{
    String::from_utf16_lossy(units)
}

fn push_utf16(units: &mut Vec<u16>, c: char)
    ensures
        final(units)@ == old(units)@ + utf16_char(c),
{
    let scalar: u32 = c as u32;
    if scalar < 0x1_0000 {
        units.push(scalar as u16);
    } else {
        units.push((0xd800 + (scalar - 0x1_0000) / 0x400) as u16);
        units.push((0xdc00 + (scalar - 0x1_0000) % 0x400) as u16);
    }
    assert(units@ =~= old(units)@ + utf16_char(c));
}

/// Encodes a text in UTF-16.
pub fn encode_utf16(text: &str) -> (units: Vec<u16>)
    ensures
        units@ == utf16(text@),
{
    let mut units: Vec<u16> = Vec::new();
    for c in it: text.chars()
        invariant
            units@ == utf16(text@.take(it.index())),
            it.seq() == text@,
    {
        push_utf16(&mut units, c);
        assert(text@.take(it.index() + 1).drop_last() =~= text@.take(it.index()));
    }
    assert(text@.take(text@.len() as int) =~= text@);
    units
}

/// Reads text from a buffer that the system has filled up to a terminating zero.
pub fn decode_buffer(buffer: &[u16]) -> (text: String)
    ensures
        text@ == utf16_lossy(before_nul(buffer@)),
        !text@.contains('\0'),
{
    let mut end: usize = 0;
    assert(buffer@ =~= buffer@.take(0) + buffer@.skip(0));
    assert(buffer@.skip(0) =~= buffer@);
    assert(before_nul(buffer@) =~= buffer@.take(0) + before_nul(buffer@.skip(0)));
    while end < buffer.len() && buffer[end] != 0
        invariant
            end <= buffer@.len(),
            before_nul(buffer@) == buffer@.take(end as int) + before_nul(buffer@.skip(end as int)),
        decreases buffer.len() - end,
    {
        proof {
            let rest = buffer@.skip(end as int);
            assert(rest.drop_first() =~= buffer@.skip(end + 1));
            assert(buffer@.take(end + 1) =~= buffer@.take(end as int) + seq![rest.first()]);
            assert(before_nul(buffer@) =~= buffer@.take(end + 1) + before_nul(
                buffer@.skip(end + 1),
            ));
        }
        end = end + 1;
    }
    assert(before_nul(buffer@) =~= buffer@.take(end as int));
    proof {
        law_buffer_text_has_no_zero(buffer@);
    }
    from_utf16_lossy(vstd::slice::slice_subrange(buffer, 0, end))
}

/// The text that code units encode, where they are valid UTF-16.
pub open spec fn utf16_text(units: Seq<u16>) -> Option<Seq<char>> {
    if exists|text: Seq<char>| #[trigger] utf16(text) == units {
        Some(choose|text: Seq<char>| #[trigger] utf16(text) == units)
    } else {
        None
    }
}

fn same_units(left: &[u16], right: &[u16]) -> (same: bool)
    ensures
        same == (left@ == right@),
{
    if left.len() != right.len() {
        return false;
    }
    let mut i: usize = 0;
    while i < left.len()
        invariant
            i <= left@.len(),
            left@.len() == right@.len(),
            forall|j: int| 0 <= j < i ==> left@[j] == right@[j],
        decreases left.len() - i,
    {
        if left[i] != right[i] {
            return false;
        }
        i = i + 1;
    }
    assert(left@ =~= right@);
    true
}

/// Decodes UTF-16. `None` where the code units are not valid.
pub fn decode_utf16(units: &[u16]) -> (text: Option<String>)
    ensures
        match text {
            Some(text) => utf16_text(units@) == Some(text@),
            None => utf16_text(units@) is None,
        },
{
    let text: String = from_utf16_lossy(units);
    let again: Vec<u16> = encode_utf16(text.as_str());
    if same_units(again.as_slice(), units) {
        assert(utf16(text@) == units@);
        proof {
            law_encoded_text_is_decoded(text@);
        }
        Some(text)
    } else {
        assert(utf16_text(units@) is None) by {
            if let Some(valid) = utf16_text(units@) {
                assert(utf16(valid) == units@);
                law_encoded_text_is_decoded(valid);
            }
        }
        None
    }
}

proof fn lemma_nonzero_units(c: char)
    requires
        c != '\0',
    ensures
        forall|i: int| 0 <= i < utf16_char(c).len() ==> utf16_char(c)[i] != 0,
{
}

/// A text without a zero character has no zero among its code units.
pub proof fn law_no_zero_units(text: Seq<char>)
    requires
        !text.contains('\0'),
    ensures
        !utf16(text).contains(0),
    decreases text.len(),
{
    if text.len() > 0 {
        assert(!text.drop_last().contains('\0')) by {
            if text.drop_last().contains('\0') {
                let i = choose|i: int|
                    0 <= i < text.drop_last().len() && text.drop_last()[i] == '\0';
                assert(text[i] == '\0');
            }
        }
        law_no_zero_units(text.drop_last());
        assert(text[text.len() - 1] != '\0');
        let head = utf16(text.drop_last());
        let tail = utf16_char(text.last());
        lemma_nonzero_units(text.last());
        assert forall|i: int| 0 <= i < (head + tail).len() implies (head + tail)[i] != 0 by {
            if i < head.len() {
                assert(head.contains(head[i]));
            }
        }
    }
}

/// A text without a zero among its code units has no zero character.
pub proof fn law_no_zero_characters(text: Seq<char>)
    requires
        !utf16(text).contains(0),
    ensures
        !text.contains('\0'),
    decreases text.len(),
{
    if text.len() > 0 {
        let head = utf16(text.drop_last());
        let tail = utf16_char(text.last());
        assert forall|i: int| 0 <= i < head.len() implies head[i] != 0 by {
            assert(utf16(text)[i] == head[i]);
            assert(utf16(text).contains(utf16(text)[i]));
        }
        law_no_zero_characters(text.drop_last());
        assert(text.last() != '\0') by {
            if text.last() == '\0' {
                assert(tail[0] == 0);
                assert(utf16(text)[head.len() as int] == 0);
            }
        }
        assert forall|i: int| 0 <= i < text.len() implies text[i] != '\0' by {
            if i < text.len() - 1 {
                assert(text.drop_last().contains(text.drop_last()[i]));
            }
        }
    }
}

proof fn lemma_utf16_front(text: Seq<char>)
    requires
        text.len() > 0,
    ensures
        utf16(text) == utf16_char(text.first()) + utf16(text.drop_first()),
    decreases text.len(),
{
    let front = utf16_char(text.first());
    if text.len() == 1 {
        assert(text.drop_last() =~= seq![]);
        assert(text.drop_first() =~= seq![]);
        assert(utf16(text) =~= front + utf16(text.drop_first()));
    } else {
        lemma_utf16_front(text.drop_last());
        assert(text.drop_last().drop_first() =~= text.drop_first().drop_last());
        assert(utf16(text) =~= front + utf16(text.drop_first()));
    }
}

proof fn lemma_character_is_decoded(c: char, rest: Seq<u16>)
    ensures
        utf16_lossy(utf16_char(c) + rest) == seq![c] + utf16_lossy(rest),
{
    let units = utf16_char(c) + rest;
    let scalar = c as int;
    if scalar < 0x1_0000 {
        assert(units[0] == scalar);
        assert(units.skip(1) =~= rest);
        assert(single_char(units[0]) == c);
    } else {
        assert(units[0] == 0xd800 + (scalar - 0x1_0000) / 0x400);
        assert(units[1] == 0xdc00 + (scalar - 0x1_0000) % 0x400);
        assert(units.skip(2) =~= rest);
        assert(paired_char(units[0], units[1]) == c);
    }
}

proof fn lemma_lossy_text(text: Seq<char>)
    ensures
        utf16_lossy(utf16(text)) == text,
    decreases text.len(),
{
    if text.len() == 0 {
        assert(utf16_lossy(utf16(text)) =~= text);
    } else {
        lemma_lossy_text(text.drop_first());
        lemma_utf16_front(text);
        lemma_character_is_decoded(text.first(), utf16(text.drop_first()));
        assert(utf16_lossy(utf16(text)) =~= text);
    }
}

/// No two texts have the same code units.
pub proof fn law_text_is_told_by_its_units(left: Seq<char>, right: Seq<char>)
    requires
        utf16(left) == utf16(right),
    ensures
        left == right,
{
    lemma_lossy_text(left);
    lemma_lossy_text(right);
}

/// Decoding gives back what was encoded, and nothing is lost of it.
pub proof fn law_encoded_text_is_decoded(text: Seq<char>)
    ensures
        utf16_lossy(utf16(text)) == text,
        utf16_text(utf16(text)) == Some(text),
{
    lemma_lossy_text(text);
    let found = choose|found: Seq<char>| #[trigger] utf16(found) == utf16(text);
    assert(utf16(found) == utf16(text));
    law_text_is_told_by_its_units(found, text);
}

proof fn lemma_lossy_has_no_zero(units: Seq<u16>)
    requires
        !units.contains(0),
    ensures
        !utf16_lossy(units).contains('\0'),
    decreases units.len(),
{
    if units.len() > 0 {
        let pair = units.len() > 1 && is_high_surrogate(units[0]) && is_low_surrogate(units[1]);
        let taken: int = if pair {
            2
        } else {
            1
        };
        let rest = units.skip(taken);
        assert(!rest.contains(0)) by {
            if rest.contains(0) {
                let i = choose|i: int| 0 <= i < rest.len() && rest[i] == 0;
                assert(units[i + taken] == 0);
            }
        }
        lemma_lossy_has_no_zero(rest);
        assert(units.contains(units[0]));
        let text = utf16_lossy(units);
        let later = utf16_lossy(rest);
        assert(text[0] != '\0');
        assert forall|i: int| 0 <= i < text.len() implies text[i] != '\0' by {
            if i > 0 {
                assert(text[i] == later[i - 1]);
                assert(later.contains(later[i - 1]));
            }
        }
    }
}

proof fn lemma_before_nul_has_no_zero(units: Seq<u16>)
    ensures
        !before_nul(units).contains(0),
    decreases units.len(),
{
    if units.len() > 0 && units.first() != 0 {
        lemma_before_nul_has_no_zero(units.drop_first());
        let later = before_nul(units.drop_first());
        let all = before_nul(units);
        assert forall|i: int| 0 <= i < all.len() implies all[i] != 0 by {
            if i > 0 {
                assert(all[i] == later[i - 1]);
                assert(later.contains(later[i - 1]));
            }
        }
    }
}

/// What is read from a buffer never has a zero character in it.
pub proof fn law_buffer_text_has_no_zero(buffer: Seq<u16>)
    ensures
        !utf16_lossy(before_nul(buffer)).contains('\0'),
{
    lemma_before_nul_has_no_zero(buffer);
    lemma_lossy_has_no_zero(before_nul(buffer));
}

/// What stands before the first zero of a sequence that starts without one.
pub proof fn lemma_before_nul(units: Seq<u16>, rest: Seq<u16>)
    requires
        !units.contains(0),
    ensures
        before_nul(units + seq![0] + rest) == units,
    decreases units.len(),
{
    let all = units + seq![0] + rest;
    if units.len() == 0 {
        assert(all.first() == 0);
        assert(before_nul(all) =~= units);
    } else {
        assert(units.contains(units[0]));
        assert(!units.drop_first().contains(0)) by {
            if units.drop_first().contains(0) {
                let i = choose|i: int| 0 <= i < units.drop_first().len() && units.drop_first()[i] == 0;
                assert(units[i + 1] == 0);
            }
        }
        lemma_before_nul(units.drop_first(), rest);
        assert(all.drop_first() =~= units.drop_first() + seq![0] + rest);
        assert(before_nul(all) =~= units);
    }
}

/// A text without a zero character that the system leaves in a buffer, in UTF-16 and with a
/// terminating zero, is what is read from the buffer.
pub proof fn law_terminated_text_is_read(text: Seq<char>, rest: Seq<u16>)
    requires
        !text.contains('\0'),
    ensures
        utf16_lossy(before_nul(utf16(text) + seq![0] + rest)) == text,
{
    law_no_zero_units(text);
    lemma_before_nul(utf16(text), rest);
    lemma_lossy_text(text);
}

/// A character of up to sixteen bits is one code unit, its own number. Any other is two: the
/// first half of a pair and then the second, which hold its number less 0x10000.
pub proof fn law_character_is_one_or_two_units(c: char)
    ensures
        (c as int) < 0x1_0000 ==> utf16(seq![c]).len() == 1 && utf16(seq![c])[0] == c as int,
        (c as int) >= 0x1_0000 ==> {
            let units = utf16(seq![c]);
            &&& units.len() == 2
            &&& 0xd800 <= units[0] < 0xdc00
            &&& 0xdc00 <= units[1] < 0xe000
            &&& c as int == 0x1_0000 + 0x400 * (units[0] - 0xd800) + (units[1] - 0xdc00)
        },
{
    reveal_with_fuel(utf16, 2);
    assert(seq![c].drop_last().len() == 0);
    assert(seq![c].last() == c);
    assert(utf16(seq![c]) =~= utf16_char(c));
}

/// The code units of two texts, one after the other, are those of the whole.
pub proof fn law_texts_are_encoded_one_by_one(left: Seq<char>, right: Seq<char>)
    ensures
        utf16(left + right) == utf16(left) + utf16(right),
    decreases right.len(),
{
    if right.len() == 0 {
        assert(left + right =~= left);
        assert(utf16(left) + utf16(right) =~= utf16(left));
    } else {
        assert((left + right).drop_last() =~= left + right.drop_last());
        law_texts_are_encoded_one_by_one(left, right.drop_last());
        assert(utf16(left + right) =~= utf16(left) + utf16(right));
    }
}

/// What stands before the first zero begins what it is taken from, has no zero in it, and goes on
/// to the first zero or, without one, to the end.
pub proof fn law_buffer_is_read_to_its_first_zero(units: Seq<u16>)
    ensures
        ({
            let read = before_nul(units);
            &&& read.len() <= units.len()
            &&& forall|i: int| 0 <= i < read.len() ==> #[trigger] read[i] == units[i]
            &&& forall|i: int| 0 <= i < read.len() ==> #[trigger] units[i] != 0
            &&& read.len() < units.len() ==> units[read.len() as int] == 0
        }),
    decreases units.len(),
{
    if units.len() > 0 && units.first() != 0 {
        let rest = units.drop_first();
        law_buffer_is_read_to_its_first_zero(rest);
        let later = before_nul(rest);
        let read = before_nul(units);
        assert forall|i: int| 0 <= i < read.len() implies #[trigger] read[i] == units[i] by {
            if i > 0 {
                assert(read[i] == later[i - 1]);
                assert(later[i - 1] == rest[i - 1]);
            }
        }
        assert forall|i: int| 0 <= i < read.len() implies #[trigger] units[i] != 0 by {
            if i > 0 {
                assert(rest[i - 1] != 0);
            }
        }
        if read.len() < units.len() {
            assert(rest[later.len() as int] == 0);
        }
    }
}

/// Code units are text exactly where some text is encoded as them, and it is that text.
pub proof fn law_units_are_text_where_a_text_is_encoded_so(units: Seq<u16>, text: Seq<char>)
    ensures
        utf16_text(units) == Some(text) <==> utf16(text) == units,
{
    if utf16(text) == units {
        law_encoded_text_is_decoded(text);
    }
}

} // verus!

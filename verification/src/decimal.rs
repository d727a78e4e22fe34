//! Decimal notation, in which coordinates and radii are written: an optional
//! minus sign, digits, and optionally a point followed by more digits. No
//! such text holds a comma, which is why a list of them can be told apart
//! again.

use vstd::prelude::*;
use vstd::string::*;

verus! {

/// One of the ten digits.
pub open spec fn is_digit(c: char) -> bool {
    '0' <= c <= '9'
}

/// One digit or more, and nothing else.
pub open spec fn is_digits(text: Seq<char>) -> bool {
    text.len() > 0 && forall|i: int| 0 <= i < text.len() ==> is_digit(#[trigger] text[i])
}

/// Digits, or digits on both sides of one point that stands at `point`.
pub open spec fn is_unsigned_at(text: Seq<char>, point: int) -> bool {
    &&& 0 < point < text.len() - 1
    &&& text[point] == '.'
    &&& is_digits(text.take(point))
    &&& is_digits(text.skip(point + 1))
}

/// A number without a sign: `51`, `0.116126`.
pub open spec fn is_unsigned_decimal(text: Seq<char>) -> bool {
    is_digits(text) || exists|point: int| is_unsigned_at(text, point)
}

/// A number in decimal notation: `51`, `-3`, `50.12345`, `-0.203586`.
pub open spec fn is_decimal(text: Seq<char>) -> bool {
    is_unsigned_decimal(text) || (text.len() > 0 && text[0] == '-' && is_unsigned_decimal(
        text.skip(1),
    ))
}

/// How often `c` stands in `text`.
pub open spec fn occurrences(text: Seq<char>, c: char) -> nat
    decreases text.len(),
{
    if text.len() == 0 {
        0
    } else {
        occurrences(text.drop_last(), c) + if text.last() == c {
            1nat
        } else {
            0nat
        }
    }
}

/// The commas in `text`.
pub open spec fn commas(text: Seq<char>) -> nat {
    occurrences(text, ',')
}

/// A character that stands nowhere in a text occurs zero times in it.
pub proof fn lemma_absent_occurs_never(text: Seq<char>, c: char)
    requires
        forall|i: int| 0 <= i < text.len() ==> text[i] != c,
    ensures
        occurrences(text, c) == 0,
    decreases text.len(),
{
    if text.len() > 0 {
        lemma_absent_occurs_never(text.drop_last(), c);
    }
}

/// What occurs in two texts put together is what occurs in the first and
/// what occurs in the second.
pub proof fn lemma_occurrences_add(first: Seq<char>, second: Seq<char>, c: char)
    ensures
        occurrences(first + second, c) == occurrences(first, c) + occurrences(second, c),
    decreases second.len(),
{
    if second.len() == 0 {
        assert(first + second == first);
    } else {
        assert((first + second).drop_last() == first + second.drop_last());
        assert((first + second).last() == second.last());
        lemma_occurrences_add(first, second.drop_last(), c);
    }
}

/// A text of one character holds that character once, and no other.
pub proof fn lemma_occurrences_of_one(only: char, c: char)
    ensures
        occurrences(seq![only], c) == if only == c {
            1nat
        } else {
            0nat
        },
{
    assert(seq![only].drop_last() == Seq::<char>::empty());
    assert(seq![only].last() == only);
    assert(occurrences(seq![only].drop_last(), c) == 0);
}

/// A number without a sign holds digits and at most a point.
pub proof fn lemma_unsigned_decimal_characters(text: Seq<char>)
    requires
        is_unsigned_decimal(text),
    ensures
        forall|i: int| 0 <= i < text.len() ==> is_digit(#[trigger] text[i]) || text[i] == '.',
{
    if !is_digits(text) {
        let point = choose|point: int| is_unsigned_at(text, point);
        assert forall|i: int| 0 <= i < text.len() implies is_digit(#[trigger] text[i]) || text[i]
            == '.' by {
            if i < point {
                assert(text.take(point)[i] == text[i]);
            } else if i > point {
                assert(text.skip(point + 1)[i - point - 1] == text[i]);
            }
        }
    }
}

/// A number in decimal notation holds no comma.
pub proof fn lemma_decimal_has_no_comma(text: Seq<char>)
    requires
        is_decimal(text),
    ensures
        forall|i: int| 0 <= i < text.len() ==> text[i] != ',',
        commas(text) == 0,
{
    if is_unsigned_decimal(text) {
        lemma_unsigned_decimal_characters(text);
    } else {
        lemma_unsigned_decimal_characters(text.skip(1));
        assert forall|i: int| 0 <= i < text.len() implies text[i] != ',' by {
            if i > 0 {
                assert(text.skip(1)[i - 1] == text[i]);
            }
        }
    }
    lemma_absent_occurs_never(text, ',');
}

/// A number without a sign begins with a digit.
pub proof fn lemma_unsigned_decimal_begins_with_digit(text: Seq<char>)
    requires
        is_unsigned_decimal(text),
    ensures
        text.len() > 0,
        is_digit(text[0]),
{
    if !is_digits(text) {
        let point = choose|point: int| is_unsigned_at(text, point);
        assert(text.take(point)[0] == text[0]);
    }
}

/// The bytes are the characters, one for one.
pub open spec fn mirrors(bytes: Seq<u8>, text: Seq<char>) -> bool {
    &&& bytes.len() == text.len()
    &&& forall|i: int| 0 <= i < text.len() ==> (#[trigger] text[i]) as int == bytes[i] as int
}

/// The end of the run of digits that begins at `from`.
fn digits_end(bytes: &[u8], from: usize, Ghost(text): Ghost<Seq<char>>) -> (end: usize)
    requires
        mirrors(bytes@, text),
        from <= bytes@.len(),
    ensures
        from <= end <= bytes@.len(),
        forall|i: int| from <= i < end ==> is_digit(#[trigger] text[i]),
        end < bytes@.len() ==> !is_digit(text[end as int]),
{
    let mut end = from;
    while end < bytes.len() && 48 <= bytes[end] && bytes[end] <= 57
        invariant
            mirrors(bytes@, text),
            from <= end <= bytes@.len(),
            forall|i: int| from <= i < end ==> is_digit(#[trigger] text[i]),
        decreases bytes@.len() - end,
    {
        end = end + 1;
    }
    end
}

/// Whether what follows the first `start` bytes is a number without a sign.
fn is_unsigned_from(bytes: &[u8], start: usize, Ghost(text): Ghost<Seq<char>>) -> (result: bool)
    requires
        mirrors(bytes@, text),
        start <= bytes@.len(),
    ensures
        result == is_unsigned_decimal(text.skip(start as int)),
{
    let ghost rest = text.skip(start as int);
    let whole_end = digits_end(bytes, start, Ghost(text));
    let ghost a = whole_end - start;
    proof {
        assert forall|i: int| 0 <= i < a implies is_digit(#[trigger] rest[i]) by {
            assert(rest[i] == text[start + i]);
        }
        if a < rest.len() {
            assert(rest[a] == text[whole_end as int]);
        }
    }
    if whole_end == start {
        proof {
            if is_unsigned_decimal(rest) {
                lemma_unsigned_decimal_begins_with_digit(rest);
            }
        }
        return false;
    }
    if whole_end == bytes.len() {
        return true;
    }
    if bytes[whole_end] != 46 {
        proof {
            assert forall|point: int| !is_unsigned_at(rest, point) by {
                if is_unsigned_at(rest, point) {
                    if point < a {
                        assert(is_digit(rest[point]));
                    } else if point > a {
                        assert(rest.take(point)[a] == rest[a]);
                    }
                }
            }
        }
        return false;
    }
    let fraction_end = digits_end(bytes, whole_end + 1, Ghost(text));
    let ghost b = fraction_end - start;
    let ghost fraction = rest.skip(a + 1);
    proof {
        assert(rest[a] == '.');
        assert forall|i: int| 0 <= i < b - a - 1 implies is_digit(#[trigger] fraction[i]) by {
            assert(fraction[i] == text[whole_end + 1 + i]);
        }
        if b < rest.len() {
            assert(fraction[b - a - 1] == text[fraction_end as int]);
        }
        assert forall|point: int| point != a implies !is_unsigned_at(rest, point) by {
            if is_unsigned_at(rest, point) {
                if point < a {
                    assert(is_digit(rest[point]));
                } else {
                    assert(rest.take(point)[a] == rest[a]);
                }
            }
        }
    }
    if fraction_end > whole_end + 1 && fraction_end == bytes.len() {
        proof {
            assert forall|i: int| 0 <= i < a implies is_digit(#[trigger] rest.take(a)[i]) by {
                assert(rest.take(a)[i] == rest[i]);
            }
            assert(is_unsigned_at(rest, a));
        }
        true
    } else {
        proof {
            assert(!is_digits(fraction));
            assert(!is_unsigned_at(rest, a));
        }
        false
    }
}

/// Whether `text` is a number in decimal notation.
pub fn is_decimal_text(text: &str) -> (result: bool)
    ensures
        result == is_decimal(text@),
{
    if !text.is_ascii() {
        proof {
            if is_decimal(text@) {
                if is_unsigned_decimal(text@) {
                    lemma_unsigned_decimal_characters(text@);
                } else {
                    lemma_unsigned_decimal_characters(text@.skip(1));
                    assert forall|i: int| 0 < i < text@.len() implies is_digit(#[trigger] text@[i])
                        || text@[i] == '.' by {
                        assert(text@.skip(1)[i - 1] == text@[i]);
                    }
                }
                assert(vstd::utf8::is_ascii_chars(text@));
            }
        }
        return false;
    }
    let bytes = text.as_bytes();
    proof {
        is_ascii_spec_bytes(text);
        assert(mirrors(bytes@, text@));
    }
    let start: usize = if bytes.len() > 0 && bytes[0] == 45 {
        1
    } else {
        0
    };
    proof {
        if start == 1 {
            assert(text@[0] == '-');
            if is_unsigned_decimal(text@) {
                lemma_unsigned_decimal_begins_with_digit(text@);
            }
        } else {
            assert(text@.skip(0) == text@);
        }
    }
    is_unsigned_from(bytes, start, Ghost(text@))
}

} // verus!

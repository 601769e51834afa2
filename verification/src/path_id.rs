//! The `{id}` segment of a path: when it is an integer, and which one.

use vstd::prelude::*;
use vstd::string::*;

verus! {

/// The largest magnitude a 64-bit integer can have: that of `i64::MIN`.
pub const MAX_MAGNITUDE: u128 = 9223372036854775808;

/// The integer that a path segment writes, as far as the table can tell
/// integers apart.
#[derive(Clone, Copy, Debug, PartialEq, Eq, Structural)]
pub enum PathId {
    /// An integer that fits in 64 bits, as every id of a row does.
    Key(i64),
    /// An integer beyond 64 bits. No row can have it as its id.
    OutOfReach,
}

/// Whether `c` is one of the ten decimal digits.
pub open spec fn is_digit(c: char) -> bool {
    '0' <= c <= '9'
}

/// Whether `c` is a plus or a minus sign.
pub open spec fn is_sign(c: char) -> bool {
    c == '+' || c == '-'
}

/// Whether every character of `text` is a decimal digit.
pub open spec fn all_digits(text: Seq<char>) -> bool {
    forall|i: int| 0 <= i < text.len() ==> is_digit(#[trigger] text[i])
}

/// The number that a run of decimal digits writes, most significant digit first.
pub open spec fn digits_value(digits: Seq<char>) -> int
    decreases digits.len(),
{
    if digits.len() == 0 {
        0
    } else {
        10 * digits_value(digits.drop_last()) + (digits.last() as int - '0' as int)
    }
}

/// What is left of `text` once a leading sign, if there is one, is taken off.
pub open spec fn unsigned_part(text: Seq<char>) -> Seq<char> {
    if text.len() > 0 && is_sign(text[0]) {
        text.skip(1)
    } else {
        text
    }
}

/// Whether `text` is written as an integer: an optional sign, then one or
/// more decimal digits and nothing else.
pub open spec fn is_integer(text: Seq<char>) -> bool {
    unsigned_part(text).len() > 0 && all_digits(unsigned_part(text))
}

/// The integer that `text` writes, for a `text` that [`is_integer`].
pub open spec fn integer_value(text: Seq<char>) -> int {
    if text.len() > 0 && text[0] == '-' {
        -digits_value(unsigned_part(text))
    } else {
        digits_value(unsigned_part(text))
    }
}

/// Whether a row can have the integer `value` as its id, as far as its
/// size goes.
pub open spec fn in_reach(value: int) -> bool {
    i64::MIN <= value <= i64::MAX
}

/// What a path segment names: nothing where it is no integer; else the
/// integer it writes, or the mere fact that this integer is beyond 64 bits.
pub open spec fn id_of(text: Seq<char>) -> Option<PathId> {
    if !is_integer(text) {
        None
    } else if in_reach(integer_value(text)) {
        Some(PathId::Key(integer_value(text) as i64))
    } else {
        Some(PathId::OutOfReach)
    }
}

/// A segment that holds a character outside ASCII is no integer.
proof fn lemma_integer_is_ascii(text: Seq<char>)
    requires
        is_integer(text),
    ensures
        vstd::utf8::is_ascii_chars(text),
{
    let rest = unsigned_part(text);
    assert forall|i: int| 0 <= i < text.len() implies '\0' <= #[trigger] text[i] <= '\u{7f}' by {
        if rest.len() == text.len() {
            assert(is_digit(rest[i]));
        } else if i > 0 {
            assert(is_digit(rest[i - 1]));
        }
    }
}

/// Reads the id out of a path segment.
///
/// The segment is accepted when it is an integer in decimal notation, with
/// or without a sign, however large; leading zeros do not matter. Anything
/// else is `None`.
pub fn parse_id(segment: &str) -> (id: Option<PathId>)
    ensures
        id == id_of(segment@),
{
    if !segment.is_ascii() {
        proof {
            if is_integer(segment@) {
                lemma_integer_is_ascii(segment@);
            }
        }
        return None;
    }
    let bytes = segment.as_bytes();
    proof {
        is_ascii_spec_bytes(segment);
    }
    let n: usize = bytes.len();
    if n == 0 {
        return None;
    }
    let negative = bytes[0] == 45;
    let start: usize = if bytes[0] == 43 || bytes[0] == 45 {
        1
    } else {
        0
    };
    let ghost digits = unsigned_part(segment@);
    assert(digits == segment@.skip(start as int));
    let mut magnitude: u128 = 0;
    let mut beyond = false;
    let mut i: usize = start;
    while i < n
        invariant
            start <= i <= n,
            n == segment@.len(),
            n == bytes@.len(),
            forall|j: int| 0 <= j < n ==> bytes@[j] == #[trigger] segment@[j] as u8,
            vstd::utf8::is_ascii_chars(segment@),
            digits == segment@.skip(start as int),
            digits == unsigned_part(segment@),
            all_digits(digits.take(i - start)),
            !beyond ==> magnitude == digits_value(digits.take(i - start)),
            beyond ==> digits_value(digits.take(i - start)) > MAX_MAGNITUDE,
            magnitude <= MAX_MAGNITUDE,
        decreases n - i,
    {
        let byte: u8 = bytes[i];
        let ghost c = segment@[i as int];
        assert(c == digits[i - start]);
        assert(byte == c as u8 && '\0' <= c <= '\u{7f}');
        if byte < 48 || byte > 57 {
            assert(!is_digit(digits[i - start]));
            return None;
        }
        let ghost longer = digits.take(i - start + 1);
        proof {
            assert(longer.drop_last() == digits.take(i - start));
            assert(longer.last() == c);
            assert(all_digits(longer)) by {
                assert forall|j: int| 0 <= j < longer.len() implies is_digit(
                    #[trigger] longer[j],
                ) by {
                    if j < i - start {
                        assert(is_digit(digits.take(i - start)[j]));
                    }
                }
            }
        }
        if !beyond {
            let longer_value: u128 = magnitude * 10 + (byte - 48) as u128;
            if longer_value > MAX_MAGNITUDE {
                beyond = true;
            } else {
                magnitude = longer_value;
            }
        }
        i += 1;
    }
    assert(digits.take(n - start) == digits);
    if i == start {
        None
    } else if beyond {
        Some(PathId::OutOfReach)
    } else if negative {
        if magnitude == MAX_MAGNITUDE {
            Some(PathId::Key(i64::MIN))
        } else {
            Some(PathId::Key(-(magnitude as i64)))
        }
    } else if magnitude < MAX_MAGNITUDE {
        Some(PathId::Key(magnitude as i64))
    } else {
        Some(PathId::OutOfReach)
    }
}

} // verus!

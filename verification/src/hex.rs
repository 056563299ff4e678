//! Canonical hexadecimal text of byte strings, as persisted for hashes and
//! addresses: the prefix `0x` followed by two lower-case digits per byte.
use crate::text::{lemma_ascii_char_of_byte, push_char};
use vstd::prelude::*;
use vstd::string::*;

verus! {

/// The lower-case hexadecimal digit that stands for `n`, for `n` below 16.
pub open spec fn nibble_char(n: int) -> char {
    if n < 10 {
        (48 + n) as char
    } else {
        (87 + n) as char
    }
}

/// The canonical text of a byte string: `0x`, then the high and the low digit
/// of every byte in turn.
pub open spec fn hex_text(bytes: Seq<u8>) -> Seq<char> {
    Seq::new(
        2 * bytes.len() + 2,
        |i: int|
            if i == 0 {
                '0'
            } else if i == 1 {
                'x'
            } else if i % 2 == 0 {
                nibble_char(bytes[(i - 2) / 2] as int / 16)
            } else {
                nibble_char(bytes[(i - 2) / 2] as int % 16)
            },
    )
}

/// The value of a hexadecimal digit of either case, if `c` is one.
pub open spec fn hex_digit_value(c: char) -> Option<int> {
    if '0' <= c <= '9' {
        Some(c as int - 48)
    } else if 'a' <= c <= 'f' {
        Some(c as int - 87)
    } else if 'A' <= c <= 'F' {
        Some(c as int - 55)
    } else {
        None
    }
}

/// Whether a text starts with `0x` or `0X`.
pub open spec fn has_hex_prefix(text: Seq<char>) -> bool {
    text.len() >= 2 && text[0] == '0' && (text[1] == 'x' || text[1] == 'X')
}

/// The digits of a hexadecimal text: what follows the optional prefix.
pub open spec fn hex_digits(text: Seq<char>) -> Seq<char> {
    if has_hex_prefix(text) {
        text.subrange(2, text.len() as int)
    } else {
        text
    }
}

/// Whether every character is a hexadecimal digit.
pub open spec fn all_hex_digits(digits: Seq<char>) -> bool {
    forall|i: int| 0 <= i < digits.len() ==> (#[trigger] hex_digit_value(digits[i])) is Some
}

/// The bytes that an even number of hexadecimal digits spell.
pub open spec fn digits_bytes(digits: Seq<char>) -> Seq<u8> {
    Seq::new(
        digits.len() / 2,
        |i: int|
            (16 * hex_digit_value(digits[2 * i]).unwrap() + hex_digit_value(
                digits[2 * i + 1],
            ).unwrap()) as u8,
    )
}

/// The bytes that a hexadecimal text spells: the prefix is optional, digits of
/// either case are accepted, and there must be two of them per byte.
pub open spec fn parse_hex(text: Seq<char>) -> Option<Seq<u8>> {
    let digits = hex_digits(text);
    if digits.len() % 2 == 0 && all_hex_digits(digits) {
        Some(digits_bytes(digits))
    } else {
        None
    }
}

/// Reading the canonical text of a byte string gives the byte string back.
pub proof fn lemma_hex_round_trip(bytes: Seq<u8>)
    ensures
        parse_hex(hex_text(bytes)) == Some(bytes),
        hex_text(bytes).len() == 2 * bytes.len() + 2,
{
    let text = hex_text(bytes);
    let digits = hex_digits(text);
    assert(has_hex_prefix(text));
    assert(digits.len() == 2 * bytes.len());
    assert forall|i: int| 0 <= i < digits.len() implies (#[trigger] hex_digit_value(
        digits[i],
    )) is Some by {
        assert(digits[i] == text[i + 2]);
    }
    assert forall|i: int| 0 <= i < bytes.len() implies digits_bytes(digits)[i] == bytes[i] by {
        assert(digits[2 * i] == text[2 * i + 2]);
        assert(digits[2 * i + 1] == text[2 * i + 3]);
        let b = bytes[i] as int;
        assert(hex_digit_value(nibble_char(b / 16)) == Some(b / 16));
        assert(hex_digit_value(nibble_char(b % 16)) == Some(b % 16));
    }
    assert(digits_bytes(digits) =~= bytes);
}

fn nibble_to_char(n: u8) -> (c: char)
    requires
        n < 16,
    ensures
        c == nibble_char(n as int),
{
    if n < 10 {
        (48 + n) as char
    } else {
        (87 + n) as char
    }
}

fn digit_of_byte(b: u8) -> (r: Option<u8>)
    ensures
        r is Some <==> hex_digit_value(b as char) is Some,
        r matches Some(v) ==> v as int == hex_digit_value(b as char).unwrap() && v < 16,
{
    if 48 <= b && b <= 57 {
        Some(b - 48)
    } else if 97 <= b && b <= 102 {
        Some(b - 87)
    } else if 65 <= b && b <= 70 {
        Some(b - 55)
    } else {
        None
    }
}

/// Writes a byte string as canonical hexadecimal text.
pub fn encode_hex(bytes: &[u8]) -> (s: String)
    ensures
        s@ == hex_text(bytes@),
{
    let mut s = String::new();
    push_char(&mut s, '0');
    push_char(&mut s, 'x');
    let mut i: usize = 0;
    while i < bytes.len()
        invariant
            i <= bytes.len(),
            s@.len() == 2 * i + 2,
            forall|j: int| 0 <= j < 2 * i + 2 ==> s@[j] == hex_text(bytes@)[j],
        decreases bytes.len() - i,
    {
        let b = bytes[i];
        push_char(&mut s, nibble_to_char(b / 16));
        push_char(&mut s, nibble_to_char(b % 16));
        i = i + 1;
    }
    assert(s@ =~= hex_text(bytes@));
    s
}

/// Reads hexadecimal text. Returns the bytes it spells, or `None` where the
/// text is not an optional prefix followed by pairs of hexadecimal digits.
pub fn decode_hex(text: &str) -> (r: Option<Vec<u8>>)
    ensures
        r is Some <==> parse_hex(text@) is Some,
        r matches Some(v) ==> v@ == parse_hex(text@).unwrap(),
{
    let ghost digits = hex_digits(text@);
    if !text.is_ascii() {
        proof {
            let k = choose|k: int| 0 <= k < text@.len() && !('\0' <= #[trigger] text@[k] <= '\u{7f}');
            if has_hex_prefix(text@) {
                assert(k >= 2);
                assert(digits[k - 2] == text@[k]);
                assert(hex_digit_value(digits[k - 2]) is None);
            } else {
                assert(hex_digit_value(digits[k]) is None);
            }
        }
        return None;
    }
    let raw = text.as_bytes();
    proof {
        is_ascii_spec_bytes(text);
    }
    assert(raw@.len() == text@.len());
    assert(forall|j: int| 0 <= j < raw@.len() ==> raw@[j] == text@[j] as u8);
    let start: usize = if raw.len() >= 2 && raw[0] == 48 && (raw[1] == 120 || raw[1] == 88) {
        2
    } else {
        0
    };
    assert(has_hex_prefix(text@) <==> start == 2) by {
        if text@.len() >= 2 {
            lemma_ascii_char_of_byte(text@[0]);
            lemma_ascii_char_of_byte(text@[1]);
        }
    }
    assert(digits.len() == raw@.len() - start);
    assert(forall|j: int| 0 <= j < digits.len() ==> digits[j] == text@[j + start]);
    if (raw.len() - start) % 2 != 0 {
        return None;
    }
    let count: usize = (raw.len() - start) / 2;
    let mut out: Vec<u8> = Vec::new();
    let mut i: usize = 0;
    while i < count
        invariant
            i <= count,
            start <= raw@.len() <= usize::MAX,
            count * 2 == raw@.len() - start,
            raw@.len() == text@.len(),
            digits == hex_digits(text@),
            digits.len() == raw@.len() - start,
            forall|j: int| 0 <= j < raw@.len() ==> raw@[j] == text@[j] as u8,
            forall|j: int| 0 <= j < text@.len() ==> '\0' <= #[trigger] text@[j] <= '\u{7f}',
            forall|j: int| 0 <= j < digits.len() ==> digits[j] == text@[j + start],
            forall|j: int| 0 <= j < 2 * i ==> (#[trigger] hex_digit_value(digits[j])) is Some,
            out@.len() == i,
            forall|j: int| 0 <= j < i ==> out@[j] == digits_bytes(digits)[j],
        decreases count - i,
    {
        let hi = digit_of_byte(raw[start + 2 * i]);
        let lo = digit_of_byte(raw[start + 2 * i + 1]);
        proof {
            lemma_ascii_char_of_byte(text@[start + 2 * i]);
            lemma_ascii_char_of_byte(text@[start + 2 * i + 1]);
            assert(digits[2 * i] == text@[2 * i + start]);
            assert(digits[2 * i + 1] == text@[2 * i + 1 + start]);
        }
        match (hi, lo) {
            (Some(h), Some(l)) => {
                out.push(h * 16 + l);
            },
            _ => {
                assert(hex_digit_value(digits[2 * i]) is None || hex_digit_value(
                    digits[2 * i + 1],
                ) is None);
                return None;
            },
        }
        i = i + 1;
    }
    assert(out@ =~= digits_bytes(digits));
    Some(out)
}

} // verus!

//! Decimal text of natural numbers, as persisted for amounts wider than 64
//! bits and as shown in links.
use crate::text::{lemma_ascii_char_of_byte, push_char};
use vstd::prelude::*;
use vstd::string::*;

verus! {

/// The character of a decimal digit below 10.
pub open spec fn digit_char(d: int) -> char {
    (48 + d) as char
}

/// The decimal text of a number: no sign, no padding, `0` for zero.
pub open spec fn decimal_text(n: nat) -> Seq<char>
    decreases n,
{
    if n < 10 {
        seq![digit_char(n as int)]
    } else {
        decimal_text(n / 10).push(digit_char((n % 10) as int))
    }
}

/// Whether a character is one of `0` to `9`.
pub open spec fn is_digit(c: char) -> bool {
    '0' <= c <= '9'
}

/// Whether a text consists of decimal digits only.
pub open spec fn all_digits(text: Seq<char>) -> bool {
    forall|i: int| 0 <= i < text.len() ==> #[trigger] is_digit(text[i])
}

/// The number that a text of decimal digits spells; leading zeros count for
/// nothing and the empty text spells zero.
pub open spec fn decimal_value(text: Seq<char>) -> nat
    decreases text.len(),
{
    if text.len() == 0 {
        0
    } else {
        decimal_value(text.drop_last()) * 10 + (text.last() as int - 48) as nat
    }
}

/// The decimal text of a number is made of digits, is not empty, and spells
/// that number.
pub proof fn lemma_decimal_round_trip(n: nat)
    ensures
        decimal_text(n).len() > 0,
        all_digits(decimal_text(n)),
        decimal_value(decimal_text(n)) == n,
    decreases n,
{
    if n < 10 {
        let t = decimal_text(n);
        assert(t.drop_last() =~= Seq::<char>::empty());
        assert(decimal_value(t.drop_last()) == 0);
    } else {
        lemma_decimal_round_trip(n / 10);
        let head = decimal_text(n / 10);
        let t = decimal_text(n);
        assert(t.drop_last() =~= head);
        assert forall|i: int| 0 <= i < t.len() implies #[trigger] is_digit(t[i]) by {
            if i < head.len() {
                assert(is_digit(head[i]));
                assert(t[i] == head[i]);
            }
        }
    }
}

/// Writes a 64-bit number as decimal text.
pub fn u64_to_decimal(n: u64) -> (s: String)
    ensures
        s@ == decimal_text(n as nat),
{
    // Digits are produced from the least significant end.
    let mut low_first: Vec<char> = Vec::new();
    let mut rest: u64 = n;
    while rest >= 10
        invariant
            decimal_text(n as nat) == decimal_text(rest as nat) + low_first@.reverse(),
        decreases rest,
    {
        let d: u8 = (rest % 10) as u8;
        let ghost before = low_first@;
        low_first.push((48 + d) as char);
        assert(low_first@.reverse() =~= seq![digit_char(d as int)] + before.reverse());
        assert(decimal_text(rest as nat) == decimal_text((rest / 10) as nat).push(
            digit_char(d as int),
        ));
        assert(decimal_text((rest / 10) as nat).push(digit_char(d as int)) + before.reverse()
            =~= decimal_text((rest / 10) as nat) + (seq![digit_char(d as int)]
            + before.reverse()));
        rest = rest / 10;
    }
    let mut s = String::new();
    push_char(&mut s, (48 + (rest as u8)) as char);
    assert(s@ =~= decimal_text(rest as nat));
    let mut k: usize = low_first.len();
    while k > 0
        invariant
            k <= low_first@.len(),
            s@ == decimal_text(rest as nat) + low_first@.reverse().take(low_first@.len() - k),
        decreases k,
    {
        k = k - 1;
        let ghost before = s@;
        push_char(&mut s, low_first[k]);
        assert(low_first@.reverse()[low_first@.len() - k - 1] == low_first@[k as int]);
        assert(s@ =~= decimal_text(rest as nat) + low_first@.reverse().take(
            low_first@.len() - k,
        ));
    }
    assert(low_first@.reverse().take(low_first@.len() as int) =~= low_first@.reverse());
    s
}

/// Whether a string slice is a non-empty run of decimal digits.
pub fn is_decimal(text: &str) -> (r: bool)
    ensures
        r == (text@.len() > 0 && all_digits(text@)),
{
    if !text.is_ascii() {
        proof {
            let k = choose|k: int|
                0 <= k < text@.len() && !('\0' <= #[trigger] text@[k] <= '\u{7f}');
            assert(!is_digit(text@[k]));
        }
        return false;
    }
    let raw = text.as_bytes();
    proof {
        is_ascii_spec_bytes(text);
    }
    if raw.len() == 0 {
        return false;
    }
    let mut i: usize = 0;
    while i < raw.len()
        invariant
            i <= raw@.len(),
            raw@.len() == text@.len(),
            forall|j: int| 0 <= j < raw@.len() ==> raw@[j] == text@[j] as u8,
            forall|j: int| 0 <= j < text@.len() ==> '\0' <= #[trigger] text@[j] <= '\u{7f}',
            forall|j: int| 0 <= j < i ==> #[trigger] is_digit(text@[j]),
        decreases raw@.len() - i,
    {
        let b = raw[i];
        proof {
            lemma_ascii_char_of_byte(text@[i as int]);
        }
        if b < 48 || b > 57 {
            assert(!is_digit(text@[i as int]));
            return false;
        }
        i = i + 1;
    }
    true
}

} // verus!

//! Hexadecimal and decimal texts, byte strings and amounts.
use blocktop::decimal::{is_decimal, u64_to_decimal};
use blocktop::hex::{decode_hex, encode_hex};
use blocktop::primitives::{FixedBytes, U256};
use blocktop::text::{bytes_equal, strip_prefix, take_chars, text_equal};

const MAX_AMOUNT: &str =
    "115792089237316195423570985008687907853269984665640564039457584007913129639935";

#[test]
fn hex_text_is_prefixed_and_lower_case() {
    assert_eq!(encode_hex(&[0x00, 0xab, 0xff, 0x10]), "0x00abff10");
    assert_eq!(encode_hex(&[]), "0x");
}

#[test]
fn hex_reads_either_case_with_or_without_prefix() {
    assert_eq!(decode_hex("0x00abff"), Some(vec![0x00, 0xab, 0xff]));
    assert_eq!(decode_hex("0X00ABfF"), Some(vec![0x00, 0xab, 0xff]));
    assert_eq!(decode_hex("00abff"), Some(vec![0x00, 0xab, 0xff]));
    assert_eq!(decode_hex(""), Some(vec![]));
    assert_eq!(decode_hex("0x"), Some(vec![]));
}

#[test]
fn hex_rejects_what_is_no_hex() {
    assert_eq!(decode_hex("0xabc"), None);
    assert_eq!(decode_hex("0xzz"), None);
    assert_eq!(decode_hex("0x0x00"), None);
    assert_eq!(decode_hex("\u{e9}\u{e9}"), None);
    assert_eq!(decode_hex(" 00"), None);
}

#[test]
fn fixed_bytes_have_a_fixed_width() {
    let text = format!("0x{}", "ab".repeat(32));
    let hash = FixedBytes::<32>::from_hex(&text).unwrap();
    assert_eq!(hash.bytes, [0xab; 32]);
    assert_eq!(hash.to_hex(), text);
    assert_eq!(FixedBytes::<20>::from_hex(&text), None);
    assert_eq!(FixedBytes::<32>::from_hex(&text[..64]), None);
    assert_eq!(FixedBytes::<4>::from_slice(&[1, 2, 3, 4]).unwrap().bytes, [1, 2, 3, 4]);
    assert_eq!(FixedBytes::<4>::from_slice(&[1, 2, 3]), None);
    assert!(FixedBytes::<20>::zero().is_zero());
    assert!(!hash.is_zero());
    assert!(hash.same(&FixedBytes { bytes: [0xab; 32] }));
    assert!(!hash.same(&FixedBytes::zero()));
}

#[test]
fn decimal_text_of_small_numbers() {
    assert_eq!(u64_to_decimal(0), "0");
    assert_eq!(u64_to_decimal(7), "7");
    assert_eq!(u64_to_decimal(10), "10");
    assert_eq!(u64_to_decimal(1_000_000), "1000000");
    assert_eq!(u64_to_decimal(u64::MAX), "18446744073709551615");
}

#[test]
fn decimal_digits_are_recognised() {
    assert!(is_decimal("0123456789"));
    assert!(!is_decimal(""));
    assert!(!is_decimal("12a"));
    assert!(!is_decimal("-1"));
    assert!(!is_decimal("1_000"));
    assert!(!is_decimal("\u{661}"));
}

#[test]
fn amount_text_is_plain_decimal() {
    assert_eq!(U256::zero().to_decimal(), "0");
    assert_eq!(U256::from_u64(1_000).to_decimal(), "1000");
    assert_eq!(
        U256::from_u128(u128::MAX).to_decimal(),
        "340282366920938463463374607431768211455"
    );
    assert_eq!(U256 { limbs: [0, 1, 0, 0] }.to_decimal(), "18446744073709551616");
    assert_eq!(U256 { limbs: [u64::MAX; 4] }.to_decimal(), MAX_AMOUNT);
}

#[test]
fn amount_reads_decimal_that_fits() {
    assert_eq!(U256::from_decimal("0"), Some(U256::zero()));
    assert_eq!(U256::from_decimal("007"), Some(U256::from_u64(7)));
    assert_eq!(U256::from_decimal("18446744073709551616"), Some(U256 { limbs: [0, 1, 0, 0] }));
    assert_eq!(U256::from_decimal(MAX_AMOUNT), Some(U256 { limbs: [u64::MAX; 4] }));
    let over = "115792089237316195423570985008687907853269984665640564039457584007913129639936";
    assert_eq!(U256::from_decimal(over), None);
    assert_eq!(U256::from_decimal(""), None);
    assert_eq!(U256::from_decimal("0x10"), None);
    assert_eq!(U256::from_decimal("1_000"), None);
    assert_eq!(U256::from_decimal("12 "), None);
}

#[test]
fn amount_and_narrower_numbers() {
    assert_eq!(U256::from_u128(u128::MAX).to_u128(), Some(u128::MAX));
    assert_eq!(U256::from_u128(5).limbs, [5, 0, 0, 0]);
    assert_eq!(U256::from_u128(1 << 64).limbs, [0, 1, 0, 0]);
    assert_eq!(U256 { limbs: [0, 0, 1, 0] }.to_u128(), None);
    assert_eq!(U256 { limbs: [3, 2, 0, 0] }.to_u128(), Some((2u128 << 64) + 3));
    assert!(U256::from_u64(9).same(&U256 { limbs: [9, 0, 0, 0] }));
    assert!(!U256::from_u64(9).same(&U256 { limbs: [9, 0, 0, 1] }));
}

#[test]
fn text_helpers() {
    assert!(bytes_equal(b"abc", b"abc"));
    assert!(!bytes_equal(b"abc", b"abd"));
    assert!(!bytes_equal(b"abc", b"ab"));
    assert!(text_equal("ws", "ws"));
    assert!(!text_equal("ws", "wss"));
    assert_eq!(strip_prefix("ipc:///tmp/x", "ipc://"), Some("/tmp/x".to_string()));
    assert_eq!(strip_prefix("ipc:/x", "ipc://"), None);
    assert_eq!(strip_prefix("ipc", "ipc://"), None);
    assert_eq!(take_chars("h\u{e9}llo", 2), "h\u{e9}");
    assert_eq!(take_chars("hi", 5), "hi");
}

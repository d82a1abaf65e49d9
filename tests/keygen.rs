use dh_keygen::{
    create_private_key, derive_public_key, generate_key_report, generate_private_key,
    parse_biguint, parse_hex_biguint, resolve_parameters, to_decimal, to_even_length_hex,
    DhGroup, KeyGenError, Natural, OutputFormat,
};
use num_bigint::BigUint;

fn big(n: &Natural) -> BigUint {
    BigUint::new(n.u32_digits())
}

fn natural(v: u64) -> Natural {
    Natural::from_u32_digits(vec![v as u32, (v >> 32) as u32])
}

fn parsed_u64(text: &str) -> u64 {
    let n = parse_biguint(text).expect("parses");
    let digits = big(&n).to_u64_digits();
    assert!(digits.len() <= 1);
    digits.first().copied().unwrap_or(0)
}

#[test]
fn parse_decimal() {
    assert_eq!(parsed_u64("1000"), 1000);
    assert_eq!(parsed_u64("0"), 0);
    assert_eq!(parsed_u64("007"), 7);
}

#[test]
fn parse_underscores_like_plain_digits() {
    assert_eq!(parsed_u64("1_000"), parsed_u64("1000"));
    assert_eq!(parsed_u64("1_000"), 1000);
}

#[test]
fn parse_hex_with_spaces() {
    assert_eq!(parsed_u64(" 0x1A "), 26);
    assert_eq!(parsed_u64("0X1a"), 26);
    assert_eq!(parsed_u64("0xff_ff"), 0xFFFF);
    assert_eq!(parsed_u64("\t1 2\n3"), 123);
}

#[test]
fn parse_empty_input() {
    assert_eq!(parse_biguint("").unwrap_err(), KeyGenError::EmptyValue);
    assert_eq!(parse_biguint("  _ \n").unwrap_err(), KeyGenError::EmptyValue);
}

#[test]
fn parse_malformed_input() {
    assert_eq!(parse_biguint("12a").unwrap_err(), KeyGenError::MalformedNumber);
    assert_eq!(parse_biguint("0x").unwrap_err(), KeyGenError::MalformedNumber);
    assert_eq!(parse_biguint("0xG1").unwrap_err(), KeyGenError::MalformedNumber);
    assert_eq!(parse_biguint("+5").unwrap_err(), KeyGenError::MalformedNumber);
    assert_eq!(parse_biguint("-5").unwrap_err(), KeyGenError::MalformedNumber);
    assert_eq!(parse_biguint("1A").unwrap_err(), KeyGenError::MalformedNumber);
}

#[test]
fn parse_large_value() {
    let n = parse_biguint("0x1_0000_0000_0000_0001").unwrap();
    assert_eq!(n.u32_digits(), vec![1, 0, 1]);
    assert_eq!(big(&n), BigUint::parse_bytes(b"18446744073709551617", 10).unwrap());
}

#[test]
fn parse_hex_literal() {
    let n = parse_hex_biguint(" FF\n01 ").unwrap();
    assert_eq!(big(&n), BigUint::from(0xFF01u32));
    assert!(parse_hex_biguint("").is_none());
    assert!(parse_hex_biguint("0xFF").is_none());
    assert!(parse_hex_biguint("F_F").is_none());
}

#[test]
fn even_length_hex_values() {
    assert_eq!(to_even_length_hex(&natural(26)), "1A");
    assert_eq!(to_even_length_hex(&natural(0x1AB)), "01AB");
    assert_eq!(to_even_length_hex(&natural(0)), "00");
    assert_eq!(to_even_length_hex(&natural(255)), "FF");
    assert_eq!(to_even_length_hex(&natural(0xABCDE)), "0ABCDE");
    assert_eq!(to_even_length_hex(&natural(u64::MAX)), "FFFFFFFFFFFFFFFF");
}

#[test]
fn even_length_hex_shape() {
    for v in [1u64, 9, 10, 15, 16, 4095, 4096, 123456789, 1 << 40] {
        let h = to_even_length_hex(&natural(v));
        assert_eq!(h.len() % 2, 0);
        assert!(h.chars().all(|c| c.is_ascii_digit() || ('A'..='F').contains(&c)));
    }
}

#[test]
fn decimal_values() {
    assert_eq!(to_decimal(&natural(1000)), "1000");
    assert_eq!(to_decimal(&natural(0)), "0");
    assert_eq!(to_decimal(&natural(u64::MAX)), "18446744073709551615");
}

#[test]
fn hex_round_trip() {
    for v in [0u64, 1, 26, 0x1AB, 4096, u64::MAX] {
        let text = format!("0x{}", to_even_length_hex(&natural(v)));
        assert_eq!(parsed_u64(&text), v);
    }
}

#[test]
fn decimal_round_trip() {
    for v in [0u64, 7, 1000, 987654321, u64::MAX] {
        assert_eq!(parsed_u64(&to_decimal(&natural(v))), v);
    }
}

#[test]
fn reject_even_modulus() {
    let e = resolve_parameters(Some("4"), Some("2"), DhGroup::Modp14).unwrap_err();
    assert_eq!(e, KeyGenError::PrimeEven);
    assert_eq!(e.message(), "prime modulus must be odd");
}

#[test]
fn reject_small_modulus() {
    let e = resolve_parameters(Some("3"), Some("2"), DhGroup::Modp14).unwrap_err();
    assert_eq!(e, KeyGenError::PrimeTooSmall);
    assert_eq!(e.message(), "prime modulus must be greater than 3");
}

#[test]
fn reject_large_generator() {
    let e = resolve_parameters(Some("11"), Some("11"), DhGroup::Modp14).unwrap_err();
    assert_eq!(e, KeyGenError::GeneratorTooLarge);
    assert_eq!(e.message(), "generator must be less than the prime modulus");
}

#[test]
fn reject_small_generator() {
    let e = resolve_parameters(None, Some("1"), DhGroup::Modp14).unwrap_err();
    assert_eq!(e, KeyGenError::GeneratorTooSmall);
    assert_eq!(e.message(), "generator must be greater than 1");
    let e = resolve_parameters(Some("11"), Some("0"), DhGroup::Modp14).unwrap_err();
    assert_eq!(e, KeyGenError::GeneratorTooSmall);
}

#[test]
fn parse_errors_pass_through_resolution() {
    let e = resolve_parameters(Some(""), None, DhGroup::Modp14).unwrap_err();
    assert_eq!(e, KeyGenError::EmptyValue);
    assert_eq!(e.message(), "value cannot be empty");
    assert!(e.is_parse_error());
    let e = resolve_parameters(Some("11"), Some("zz"), DhGroup::Modp14).unwrap_err();
    assert_eq!(e, KeyGenError::MalformedNumber);
    assert_eq!(e.message(), "failed to parse big integer");
    assert!(!KeyGenError::PrimeEven.is_parse_error());
}

#[test]
fn modulus_checked_before_generator() {
    let e = resolve_parameters(Some("4"), Some("junk"), DhGroup::Modp14).unwrap_err();
    assert_eq!(e, KeyGenError::PrimeEven);
}

#[test]
fn default_group_parameters() {
    let params = resolve_parameters(None, None, DhGroup::Modp14).unwrap();
    assert_eq!(big(&params.prime).bits(), 2048);
    assert_eq!(big(&params.generator), BigUint::from(2u32));
    let expected = BigUint::parse_bytes(DhGroup::Modp14.default_prime_hex().as_bytes(), 16).unwrap();
    assert_eq!(big(&params.prime), expected);
    assert_eq!(DhGroup::Modp14.default_generator(), "2");
}

#[test]
fn custom_prime_with_group_generator() {
    let params = resolve_parameters(Some("0x17"), None, DhGroup::Modp14).unwrap();
    assert_eq!(big(&params.prime), BigUint::from(23u32));
    assert_eq!(big(&params.generator), BigUint::from(2u32));
}

#[test]
fn private_key_range() {
    for p in [5u64, 7, 11, 23] {
        for _ in 0..200 {
            let x = big(&generate_private_key(&natural(p)));
            assert!(x >= BigUint::from(2u32));
            assert!(x <= BigUint::from(p - 2));
        }
    }
}

#[test]
fn private_key_range_default_group() {
    let params = resolve_parameters(None, None, DhGroup::Modp14).unwrap();
    let p = big(&params.prime);
    for _ in 0..20 {
        let x = big(&generate_private_key(&params.prime));
        assert!(x >= BigUint::from(2u32));
        assert!(x <= &p - 2u32);
    }
}

#[test]
fn public_key_values() {
    assert_eq!(big(&derive_public_key(&natural(2), &natural(5), &natural(11))), BigUint::from(10u32));
    assert_eq!(big(&derive_public_key(&natural(3), &natural(0), &natural(7))), BigUint::from(1u32));
    assert_eq!(big(&derive_public_key(&natural(5), &natural(117), &natural(19))), BigUint::from(1u32));
}

#[test]
fn public_key_consistency() {
    let params = resolve_parameters(None, None, DhGroup::Modp14).unwrap();
    let x = generate_private_key(&params.prime);
    let y = derive_public_key(&params.generator, &x, &params.prime);
    assert_eq!(big(&y), big(&params.generator).modpow(&big(&x), &big(&params.prime)));
}

#[test]
fn report_formats() {
    let params = resolve_parameters(Some("23"), Some("5"), DhGroup::Modp14).unwrap();
    let hex = generate_key_report(&params, OutputFormat::Hex);
    assert!(hex.private_key_hex.is_some() && hex.private_key_dec.is_none());
    let dec = generate_key_report(&params, OutputFormat::Decimal);
    assert!(dec.private_key_hex.is_none() && dec.private_key_dec.is_some());
    let both = generate_key_report(&params, OutputFormat::Both);
    assert!(both.private_key_hex.is_some() && both.private_key_dec.is_some());
    assert_eq!(both.prime_bits, 5);
    assert_eq!(both.generator, "5");
}

#[test]
fn end_to_end_small_group() {
    let report =
        create_private_key(Some("11"), Some("2"), DhGroup::Modp14, OutputFormat::Both).unwrap();
    assert_eq!(report.prime_bits, 4);
    assert_eq!(report.generator, "2");
    let hex = report.private_key_hex.clone().unwrap();
    let x = BigUint::parse_bytes(hex.as_bytes(), 16).unwrap();
    assert!(x >= BigUint::from(2u32) && x <= BigUint::from(9u32));
    assert_eq!(report.private_key_dec.clone().unwrap(), x.to_str_radix(10));
    assert_eq!(big(&report.private_key), x);
    let y = BigUint::from(2u32).modpow(&x, &BigUint::from(11u32));
    assert_eq!(report.public_key_hex, format!("{:02X}", y));
    assert_eq!(big(&report.public_key), y);
}

#[test]
fn end_to_end_rejects() {
    let e = create_private_key(Some("4"), None, DhGroup::Modp14, OutputFormat::Hex).unwrap_err();
    assert_eq!(e, KeyGenError::PrimeEven);
}

#[test]
fn end_to_end_default_group() {
    let report = create_private_key(None, None, DhGroup::Modp14, OutputFormat::Hex).unwrap();
    assert_eq!(report.prime_bits, 2048);
    assert_eq!(report.generator, "2");
    assert_eq!(report.public_key_hex.len() % 2, 0);
    let text = format!("0x{}", report.private_key_hex.unwrap());
    assert_eq!(big(&parse_biguint(&text).unwrap()), big(&report.private_key));
}

#[test]
fn natural_digits_round_trip() {
    let n = Natural::from_u32(7);
    assert_eq!(n.u32_digits(), vec![7]);
    let m = Natural::from_u32_digits(vec![0, 0, 3]);
    assert_eq!(big(&m), BigUint::from(3u64 << 32) << 32);
}

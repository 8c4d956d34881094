use evm_rpc_harness::hex::{parse_hex_u64, parse_quantity};
use evm_rpc_harness::text::{
    decimal_sum_text, decimal_text, hex_text, next_hex_text, padded_text, repeated_text, signed_decimal_text,
    str_contains, str_eq, str_replace, str_starts_with, str_strip_prefix, str_trim_start_matches,
};

#[test]
fn searching_agrees_with_std() {
    let texts = ["", "a", "op-reth/v1", "rereth", "gethgeth", "naïve ✓ text", "ws://ws://x"];
    let patterns = ["", "a", "reth", "geth", "✓", "ws://", "gethgethgeth"];
    for t in texts {
        for p in patterns {
            assert_eq!(str_contains(t, p), t.contains(p), "{t} {p}");
            assert_eq!(str_starts_with(t, p), t.starts_with(p), "{t} {p}");
            assert_eq!(str_strip_prefix(t, p), t.strip_prefix(p), "{t} {p}");
            assert_eq!(str_eq(t, p), t == p);
            if !p.is_empty() {
                assert_eq!(str_trim_start_matches(t, p), t.trim_start_matches(p), "{t} {p}");
                assert_eq!(str_replace(t, p, "<>"), t.replace(p, "<>"), "{t} {p}");
            }
        }
    }
}

#[test]
fn numbers_are_written_as_std_writes_them() {
    for n in [0u64, 1, 9, 10, 15, 16, 255, 1_000_000_000, u64::MAX] {
        assert_eq!(decimal_text(n), n.to_string());
        assert_eq!(hex_text(n), format!("{n:x}"));
    }
    for n in [0i64, 5, -1, -32601, i64::MIN, i64::MAX] {
        assert_eq!(signed_decimal_text(n), n.to_string());
    }
    assert_eq!(decimal_sum_text(u64::MAX, 1), "18446744073709551616");
}

#[test]
fn padding_counts_characters() {
    assert_eq!(padded_text("ab", 4), format!("{:4}", "ab"));
    assert_eq!(padded_text("é✓", 4), format!("{:4}", "é✓"));
    assert_eq!(padded_text("abcdef", 4), "abcdef");
    assert_eq!(repeated_text("=", 3), "===");
}

#[test]
fn hex_strings_are_read() {
    assert!(matches!(parse_hex_u64("0x185b6ee"), Ok(0x185b6ee)));
    assert!(matches!(parse_hex_u64("185B6EE"), Ok(0x185b6ee)));
    assert!(matches!(parse_hex_u64("+ff"), Ok(255)));
    assert!(matches!(parse_hex_u64("0xffffffffffffffff"), Ok(u64::MAX)));
}

#[test]
fn a_bad_hex_string_is_named() {
    let f = parse_hex_u64("0xzz").err().unwrap();
    assert_eq!(f.message, "invalid hex number: 0xzz");
    assert_eq!(f.causes, vec!["invalid digit found in string".to_string()]);
    assert_eq!(f.detail(), "invalid hex number: 0xzz: invalid digit found in string");
    // only one prefix is taken off
    assert!(parse_hex_u64("0x0x1").is_err());
    assert!(parse_hex_u64("").is_err());
    assert!(parse_hex_u64("-1").is_err());
    let f = parse_hex_u64("0x10000000000000000").err().unwrap();
    assert_eq!(f.causes[0], "number too large to fit in target type");
}

#[test]
fn quantities_are_read() {
    assert!(matches!(parse_quantity("0x1b4"), Ok(436)));
    assert!(matches!(parse_quantity("0x0x10"), Ok(16)));
    assert!(matches!(parse_quantity("10"), Ok(16)));
    let f = parse_quantity("0x").err().unwrap();
    assert_eq!(f.message, "cannot parse integer from empty string");
    assert!(f.causes.is_empty());
}

#[test]
fn what_is_written_in_hex_reads_back() {
    for n in [0u64, 1, 15, 16, 0x185b6ee, u64::MAX] {
        let text = format!("0x{}", hex_text(n));
        assert!(matches!(parse_hex_u64(&text), Ok(m) if m == n));
        assert!(matches!(parse_quantity(&text), Ok(m) if m == n));
    }
}

#[test]
fn other_writings_read_back() {
    for s in ["0x185b6ee", "185b6ee", "0x185B6EE", "185B6EE", "0x000185b6ee", "0000185B6EE"] {
        assert!(matches!(parse_hex_u64(s), Ok(0x185b6ee)), "{s}");
        assert!(matches!(parse_quantity(s), Ok(0x185b6ee)), "{s}");
    }
    assert!(matches!(parse_hex_u64("0x00000000000000000000ffffffffffffffff"), Ok(u64::MAX)));
}

#[test]
fn the_next_number_is_written_in_full() {
    assert_eq!(next_hex_text(0), "1");
    assert_eq!(next_hex_text(15), "10");
    assert_eq!(next_hex_text(u64::MAX), "10000000000000000");
}

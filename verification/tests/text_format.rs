use df_displmgr::activation::trim;
use df_displmgr::text::{i32_to_decimal, parse_u32, u32_to_decimal, u32_to_hex10, u64_to_decimal};

#[test]
fn decimal_formatting() {
    assert_eq!(u64_to_decimal(0), "0");
    assert_eq!(u64_to_decimal(18_446_744_073_709_551_615), "18446744073709551615");
    assert_eq!(u32_to_decimal(4_294_967_295), "4294967295");
    assert_eq!(i32_to_decimal(-2_147_483_648), "-2147483648");
    assert_eq!(i32_to_decimal(-5), "-5");
    assert_eq!(i32_to_decimal(42), "42");
}

#[test]
fn hex_formatting_matches_format_macro() {
    for n in [0u32, 1, 0xABCD, 0xFFFF_FFFF, 0x0012_3456] {
        assert_eq!(u32_to_hex10(n), format!("{:#010X}", n));
    }
    assert_eq!(u32_to_hex10(0xBEEF), "0x0000BEEF");
}

#[test]
fn parse_matches_std_parse() {
    let cases = [
        "0", "42", "+42", "", "+", "-1", "4294967295", "4294967296", "99999999999", "12a", " 1", "007",
        "++1",
    ];
    for c in cases {
        assert_eq!(parse_u32(c), c.parse::<u32>().ok(), "input {:?}", c);
    }
}

#[test]
fn parse_reads_back_decimal() {
    for n in [0u32, 7, 10, 65_535, 4_294_967_295] {
        assert_eq!(parse_u32(&u32_to_decimal(n)), Some(n));
    }
}

#[test]
fn trim_matches_std_trim() {
    let cases = ["", "   ", " a ", "\tDell U2720Q\n", "x", "\u{3000}wide\u{2003}", " inner space "];
    for c in cases {
        assert_eq!(trim(c), c.trim(), "input {:?}", c);
    }
}

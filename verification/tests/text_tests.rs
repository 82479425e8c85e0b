use ngx_radar::text::{parse_u64, trim};

#[test]
fn decimal_volumes() {
    assert_eq!(parse_u64("0"), Some(0));
    assert_eq!(parse_u64("007"), Some(7));
    assert_eq!(parse_u64("+12"), Some(12));
    assert_eq!(parse_u64("1234567"), Some(1234567));
    assert_eq!(parse_u64("18446744073709551615"), Some(u64::MAX));
}

#[test]
fn refused_volumes() {
    for t in ["", "+", "-", "-1", " 1", "1 ", "1a", "1.0", "++1", "18446744073709551616", "99999999999999999999x"] {
        assert_eq!(parse_u64(t), None, "{:?}", t);
    }
}

#[test]
fn reads_as_std_does() {
    for t in ["0", "42", "+42", "-0", "", "+", "12_3", "٣", "18446744073709551615", "18446744073709551616"] {
        assert_eq!(parse_u64(t), t.parse::<u64>().ok(), "{:?}", t);
    }
}

#[test]
fn trims_as_std_does() {
    for t in ["", "   ", " a ", "\t\n x y \r", "\u{3000}名\u{85}", "\u{a0}\u{2028}z", "no-space", "\u{200b}x\u{200b}"] {
        assert_eq!(trim(t), t.trim(), "{:?}", t);
    }
    assert_eq!(trim("  Real Estate "), "Real Estate");
}

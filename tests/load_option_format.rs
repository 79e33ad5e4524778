use efibootnext::load_option_format::{LoadOptionFormat, ParseBootNextError};

#[test]
fn radix_of_each_format() {
    assert_eq!(LoadOptionFormat::Hex.radix(), 16);
    assert_eq!(LoadOptionFormat::Dec.radix(), 10);
}

#[test]
fn parses_hex_values() {
    let f = LoadOptionFormat::Hex;
    assert_eq!(f.parse_boot_next("0").unwrap(), 0);
    assert_eq!(f.parse_boot_next("10").unwrap(), 16);
    assert_eq!(f.parse_boot_next("000A").unwrap(), 10);
    assert_eq!(f.parse_boot_next("ffff").unwrap(), 0xFFFF);
    assert_eq!(f.parse_boot_next("+1F").unwrap(), 0x1F);
}

#[test]
fn parses_decimal_values() {
    let f = LoadOptionFormat::Dec;
    assert_eq!(f.parse_boot_next("10").unwrap(), 10);
    assert_eq!(f.parse_boot_next("65535").unwrap(), 65535);
    assert_eq!(f.parse_boot_next("0007").unwrap(), 7);
}

#[test]
fn rejects_values_outside_the_format() {
    let dec = LoadOptionFormat::Dec;
    let hex = LoadOptionFormat::Hex;
    let dec_err = ParseBootNextError { format: LoadOptionFormat::Dec };
    let hex_err = ParseBootNextError { format: LoadOptionFormat::Hex };
    assert_eq!(dec.parse_boot_next("A"), Err(dec_err));
    assert_eq!(dec.parse_boot_next("65536"), Err(dec_err));
    assert_eq!(dec.parse_boot_next("999999x"), Err(dec_err));
    assert_eq!(dec.parse_boot_next(""), Err(dec_err));
    assert_eq!(dec.parse_boot_next("+"), Err(dec_err));
    assert_eq!(dec.parse_boot_next("-1"), Err(dec_err));
    assert_eq!(dec.parse_boot_next(" 1"), Err(dec_err));
    assert_eq!(hex.parse_boot_next("10000"), Err(hex_err));
    assert_eq!(hex.parse_boot_next("G"), Err(hex_err));
    assert_eq!(hex.parse_boot_next("0x10"), Err(hex_err));
}

#[test]
fn agrees_with_std_parsing() {
    let samples = ["0", "1", "9", "a", "F", "ff", "100", "65535", "65536", "+7", "+", "", "x", "1_0", "FFFF", "10000"];
    for s in samples {
        for f in [LoadOptionFormat::Hex, LoadOptionFormat::Dec] {
            let expected = u16::from_str_radix(s, f.radix()).ok();
            assert_eq!(f.parse_boot_next(s).ok(), expected, "{:?} in {:?}", s, f);
        }
    }
}

use efibootnext::name_codec::{format_load_option_name, parse_load_option_name};

#[test]
fn adapter_formats_validly() {
    assert_eq!(format_load_option_name(0), "Boot0000");
    assert_eq!(format_load_option_name(1), "Boot0001");
    assert_eq!(format_load_option_name(2), "Boot0002");
    assert_eq!(format_load_option_name(10), "Boot000A");
    assert_eq!(format_load_option_name(16), "Boot0010");
}

#[test]
fn operation_formats_validly() {
    assert_eq!(format_load_option_name(0), "Boot0000");
    assert_eq!(format_load_option_name(1), "Boot0001");
    assert_eq!(format_load_option_name(2), "Boot0002");
    assert_eq!(format_load_option_name(10), "Boot000A");
    assert_eq!(format_load_option_name(16), "Boot0010");
}

#[test]
fn formats_largest_slot() {
    assert_eq!(format_load_option_name(0xFFFF), "BootFFFF");
    assert_eq!(format_load_option_name(0x9980), "Boot9980");
    assert_eq!(format_load_option_name(0xABCD).len(), 8);
}

#[test]
fn name_round_trip_for_every_slot() {
    for n in 0..=u16::MAX {
        let name = format_load_option_name(n);
        assert_eq!(parse_load_option_name(&name), Some(n));
    }
}

#[test]
fn rejects_names_that_do_not_match() {
    assert_eq!(parse_load_option_name("Foo0001"), None);
    assert_eq!(parse_load_option_name("Boot00G1"), None);
    assert_eq!(parse_load_option_name("Boot1"), None);
    assert_eq!(parse_load_option_name("BootNext"), None);
    assert_eq!(parse_load_option_name("BootOrder"), None);
    assert_eq!(parse_load_option_name("Boot00010"), None);
    assert_eq!(parse_load_option_name("boot0001"), None);
    assert_eq!(parse_load_option_name(""), None);
}

#[test]
fn parses_hex_digits_of_either_case() {
    assert_eq!(parse_load_option_name("Boot000A"), Some(10));
    assert_eq!(parse_load_option_name("Boot00ff"), Some(0xFF));
    assert_eq!(parse_load_option_name("Boot9990"), Some(0x9990));
    assert_eq!(parse_load_option_name("BootFFFF"), Some(0xFFFF));
}

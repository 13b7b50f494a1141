use serial_rs::parse::device_name_start;
use serial_rs::parse::nul_trim_range;
use serial_rs::parse::parse_hex_u16;
use serial_rs::parse::split_on;

#[test]
fn hex_parsing_matches_radix_sixteen() {
    assert_eq!(parse_hex_u16(b"1a86"), Some(0x1a86));
    assert_eq!(parse_hex_u16(b"FFFF"), Some(0xffff));
    assert_eq!(parse_hex_u16(b"0"), Some(0));
    assert_eq!(parse_hex_u16(b"+1f"), Some(0x1f));
    assert_eq!(parse_hex_u16(b"00001f"), Some(0x1f));
    assert_eq!(parse_hex_u16(b""), None);
    assert_eq!(parse_hex_u16(b"+"), None);
    assert_eq!(parse_hex_u16(b"10000"), None);
    assert_eq!(parse_hex_u16(b"12g4"), None);
    assert_eq!(parse_hex_u16(b"-1"), None);
    assert_eq!(parse_hex_u16(b"ffffffffffffffffffffff"), None);
}

#[test]
fn hex_parsing_agrees_with_the_standard_library() {
    for input in ["1a86", "ffff", "0", "+1f", "00001f", "", "+", "10000", "12g4", "-1"] {
        assert_eq!(
            parse_hex_u16(input.as_bytes()),
            u16::from_str_radix(input, 16).ok(),
            "input {input:?}"
        );
    }
}

#[test]
fn splitting_keeps_empty_parts() {
    let parts = split_on(b"1a86/7523/264", 47);
    assert_eq!(parts, vec![b"1a86".to_vec(), b"7523".to_vec(), b"264".to_vec()]);
    let parts = split_on(b"//", 47);
    assert_eq!(parts, vec![Vec::<u8>::new(), Vec::new(), Vec::new()]);
    let parts = split_on(b"", 47);
    assert_eq!(parts, vec![Vec::<u8>::new()]);
    let parts = split_on(b"abc", 47);
    assert_eq!(parts, vec![b"abc".to_vec()]);
}

#[test]
fn device_name_starts_after_the_last_separator() {
    let path = b"/dev/ttyUSB0";
    let start = device_name_start(path);
    assert_eq!(&path[start..], b"ttyUSB0");
    assert_eq!(device_name_start(b"ttyS0"), 0);
    assert_eq!(device_name_start(b"/dev/"), 5);
    assert_eq!(device_name_start(b""), 0);
}

#[test]
fn nul_trimming_brackets_the_content() {
    let (a, b) = nul_trim_range(b"\0\0USB\\VID\0\0\0");
    assert_eq!((a, b), (2, 9));
    let all = b"\0\0\0";
    assert_eq!(nul_trim_range(all), (3, 3));
    assert_eq!(nul_trim_range(b"abc"), (0, 3));
    assert_eq!(nul_trim_range(b""), (0, 0));
    let buf = b"COM3\0\0\0\0";
    let (a, b) = nul_trim_range(buf);
    assert_eq!(&buf[a..b], b"COM3");
}

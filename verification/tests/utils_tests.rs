use usb_disk_remover::text::{mount_points_match, parse_u32, parse_u32_chars, push_decimal};
use usb_disk_remover::utf16::{decode_utf16_lossy, nul_position, trim_bounds};
use usb_disk_remover::utils::{
    is_bit_set, is_windows_11_build_text, is_windows_11_from_registry, is_windows_11_or_greater,
    str_to_utf16vec, utf16_le_bytes,
};

#[test]
fn bits() {
    assert!(is_bit_set(5, 0));
    assert!(!is_bit_set(5, 1));
    assert!(is_bit_set(5, 2));
    assert!(is_bit_set(0x8000_0000, 31));
    assert!(!is_bit_set(0x7fff_ffff, 31));
    assert!(!is_bit_set(0, 7));
}

#[test]
fn utf16_ascii_and_terminator() {
    assert_eq!(str_to_utf16vec("AB"), vec![0x41, 0x42, 0]);
    assert_eq!(str_to_utf16vec(""), vec![0]);
}

#[test]
fn utf16_non_ascii() {
    assert_eq!(str_to_utf16vec("é✕"), vec![0xE9, 0x2715, 0]);
    assert_eq!(str_to_utf16vec("😀"), vec![0xD83D, 0xDE00, 0]);
    let s = "Run \u{10FFFF} ü";
    let expected: Vec<u16> = s.encode_utf16().chain([0u16]).collect();
    assert_eq!(str_to_utf16vec(s), expected);
}

#[test]
fn utf16_terminator_is_first_zero() {
    let v = str_to_utf16vec("USBDiskRemover");
    assert_eq!(v.iter().position(|&u| u == 0), Some(v.len() - 1));
}

#[test]
fn little_endian_bytes() {
    assert_eq!(utf16_le_bytes(&[0x0041, 0x2715, 0]), vec![0x41, 0x00, 0x15, 0x27, 0, 0]);
    assert_eq!(utf16_le_bytes(&[]), Vec::<u8>::new());
}

#[test]
fn decimal_digits() {
    let mut s = String::from("n=");
    push_decimal(&mut s, 0);
    assert_eq!(s, "n=0");
    let mut t = String::new();
    push_decimal(&mut t, 1234567890);
    assert_eq!(t, "1234567890");
}

#[test]
fn parse_numbers() {
    assert_eq!(parse_u32("22631"), Some(22631));
    assert_eq!(parse_u32("+7"), Some(7));
    assert_eq!(parse_u32("0"), Some(0));
    assert_eq!(parse_u32("4294967295"), Some(u32::MAX));
    assert_eq!(parse_u32("4294967296"), None);
    assert_eq!(parse_u32("99999999999999999999"), None);
    assert_eq!(parse_u32(""), None);
    assert_eq!(parse_u32("+"), None);
    assert_eq!(parse_u32("-1"), None);
    assert_eq!(parse_u32("12a"), None);
    assert_eq!(parse_u32(" 1"), None);
    assert_eq!(parse_u32("٣"), None);
}

#[test]
fn parse_agrees_with_std() {
    for s in ["1", "+0", "00012", "4294967295", "4294967296", "", "+", "++1", "x", "1 "] {
        assert_eq!(parse_u32(s), s.parse::<u32>().ok());
    }
}

#[test]
fn windows_11_threshold() {
    assert!(is_windows_11_build_text("22000"));
    assert!(is_windows_11_build_text("26100"));
    assert!(!is_windows_11_build_text("21999"));
    assert!(!is_windows_11_build_text("19045"));
    assert!(is_windows_11_build_text("unknown"));
}

#[test]
fn windows_11_from_registry_buffer() {
    let mut buf = [0u16; 32];
    for (i, u) in "19045".encode_utf16().enumerate() {
        buf[i] = u;
    }
    assert!(!is_windows_11_from_registry(Some(&buf)));
    let mut buf2 = [0u16; 32];
    for (i, u) in " 22631 \n".encode_utf16().enumerate() {
        buf2[i] = u;
    }
    assert!(is_windows_11_from_registry(Some(&buf2)));
    let mut buf3 = [0u16; 32];
    for (i, u) in "\t19045 ".encode_utf16().enumerate() {
        buf3[i] = u;
    }
    assert!(!is_windows_11_from_registry(Some(&buf3)));
    let padded: Vec<u16> = "19041".encode_utf16().collect();
    assert!(!is_windows_11_from_registry(Some(&padded)));
    assert!(is_windows_11_from_registry(Some(&[])));
    assert!(is_windows_11_from_registry(None));
    let lone_surrogate = [0xD800u16, 0x31, 0];
    assert!(is_windows_11_from_registry(Some(&lone_surrogate)));
}

#[test]
fn windows_11_without_registry() {
    assert!(is_windows_11_or_greater());
}

#[test]
fn mount_point_matching() {
    assert!(mount_points_match("E:\\", "E:"));
    assert!(mount_points_match("E:", "E:\\\\"));
    assert!(mount_points_match("E:", "E:"));
    assert!(!mount_points_match("E:", "F:"));
    assert!(!mount_points_match("E:", "e:"));
    assert!(!mount_points_match("E:\\x", "E:"));
    assert!(mount_points_match("", "\\"));
    assert_eq!(mount_points_match("E:\\", "E:"), mount_points_match("E:", "E:\\"));
}

#[test]
fn decoding_utf16() {
    let units: Vec<u16> = "Aé😀".encode_utf16().collect();
    assert_eq!(decode_utf16_lossy(&units), vec!['A', 'é', '😀']);
    assert_eq!(decode_utf16_lossy(&[0xD800, 0x41]), vec!['\u{FFFD}', 'A']);
    assert_eq!(decode_utf16_lossy(&[0xDC00]), vec!['\u{FFFD}']);
    assert_eq!(decode_utf16_lossy(&[0x41, 0xD83D]), vec!['A', '\u{FFFD}']);
    assert_eq!(decode_utf16_lossy(&[]), Vec::<char>::new());
}

#[test]
fn decoding_agrees_with_std() {
    let samples: [&[u16]; 5] = [
        &[0x48, 0x69],
        &[0xD83D, 0xDE00, 0x20],
        &[0xDE00, 0xD83D],
        &[0xD800, 0xD800, 0xDC00],
        &[0xFFFF, 0xE000, 0xD7FF],
    ];
    for units in samples {
        let ours: String = decode_utf16_lossy(units).into_iter().collect();
        assert_eq!(ours, String::from_utf16_lossy(units));
    }
}

#[test]
fn utf16_round_trip() {
    for s in ["", "E:\\", "Настройки", "خروج", "a😀b\u{10FFFF}"] {
        let mut units = str_to_utf16vec(s);
        units.pop();
        let back: String = decode_utf16_lossy(&units).into_iter().collect();
        assert_eq!(back, s);
    }
}

#[test]
fn terminator_position() {
    assert_eq!(nul_position(&[0x31, 0x32, 0, 0x33]), 2);
    assert_eq!(nul_position(&[0x31]), 1);
    assert_eq!(nul_position(&[0]), 0);
    assert_eq!(nul_position(&[]), 0);
}

#[test]
fn trimming() {
    let chars: Vec<char> = " \t22000\u{3000}\n".chars().collect();
    let (a, b) = trim_bounds(&chars);
    let kept: String = chars[a..b].iter().collect();
    assert_eq!(kept, "22000");
    let blank: Vec<char> = "  \u{2028} ".chars().collect();
    let (a, b) = trim_bounds(&blank);
    assert_eq!(a, b);
    let inner: Vec<char> = "x y".chars().collect();
    assert_eq!(trim_bounds(&inner), (0, 3));
    for s in ["\u{85}a\u{A0}", "\u{200B}a", " a b ", ""] {
        let chars: Vec<char> = s.chars().collect();
        let (a, b) = trim_bounds(&chars);
        let kept: String = chars[a..b].iter().collect();
        assert_eq!(kept, s.trim());
    }
}

#[test]
fn parsing_characters() {
    assert_eq!(parse_u32_chars(&['1', '9', '0', '4', '5']), Some(19045));
    assert_eq!(parse_u32_chars(&['+']), None);
    assert_eq!(parse_u32_chars(&[]), None);
}

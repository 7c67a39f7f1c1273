use opensi::encoding::{
    decode_file_name, encode_file_name, hex_digit_value, needs_escape, percent_encode,
};
use percent_encoding::percent_decode_str;

fn decoded(name: &str) -> Vec<u8> {
    decode_file_name(name)
}

#[test]
fn space_becomes_an_escape() {
    assert_eq!(percent_encode("a b"), "a%20b");
}

#[test]
fn control_bytes_become_escapes() {
    assert_eq!(percent_encode("a\tb\nc\u{0}d\u{1f}e"), "a%09b%0Ac%00d%1Fe");
}

#[test]
fn delete_becomes_an_escape() {
    assert_eq!(percent_encode("a\u{7f}b"), "a%7Fb");
}

#[test]
fn bytes_outside_ascii_are_escaped_one_by_one() {
    assert_eq!(percent_encode("\u{e9}"), "%C3%A9");
    assert_eq!(percent_encode("\u{432}\u{43e}"), "%D0%B2%D0%BE");
    assert_eq!(percent_encode("\u{20ac}"), "%E2%82%AC");
    assert_eq!(percent_encode("\u{1f600}"), "%F0%9F%98%80");
}

#[test]
fn printable_ascii_is_kept() {
    let all = "!\"#$%&'()*+,-./0123456789:;<=>?@ABCXYZ[\\]^_`abcxyz{|}~";
    assert_eq!(percent_encode(all), all);
}

#[test]
fn the_percent_sign_is_not_escaped() {
    assert_eq!(percent_encode("100%"), "100%");
    assert_eq!(percent_encode("a%20b"), "a%20b");
}

#[test]
fn the_empty_name_stays_empty() {
    assert_eq!(percent_encode(""), "");
    assert_eq!(encode_file_name(""), "");
}

#[test]
fn the_bare_transform_keeps_the_sentinel() {
    assert_eq!(percent_encode("@photo 1.png"), "@photo%201.png");
    assert_eq!(percent_encode("@"), "@");
}

#[test]
fn a_file_name_loses_its_sentinel() {
    assert_eq!(encode_file_name("@photo 1.png"), "photo%201.png");
    assert_eq!(encode_file_name("@"), "");
}

#[test]
fn the_sentinel_of_a_file_name_is_not_escaped() {
    let safe = encode_file_name("@photo 1.png");
    assert_ne!(safe, "@photo%201.png");
    assert_ne!(safe, "%40photo%201.png");
}

#[test]
fn a_file_name_with_a_sentinel_is_the_encoding_of_the_rest() {
    for rest in ["a", "photo 1.png", "\u{e9}t\u{e9}.mp3", "@b", " ", "100%"] {
        let raw = format!("@{}", rest);
        assert_eq!(encode_file_name(&raw), percent_encode(rest));
    }
}

#[test]
fn a_file_name_without_a_sentinel_is_its_own_encoding() {
    for raw in ["", "a", "photo 1.png", "a@b", " @a", "%40a"] {
        assert_eq!(encode_file_name(raw), percent_encode(raw));
    }
}

#[test]
fn a_safe_name_drops_one_sentinel_only() {
    assert_eq!(encode_file_name("@@a"), "@a");
}

#[test]
fn a_sentinel_inside_a_name_is_kept() {
    assert_eq!(encode_file_name("a@b c"), "a@b%20c");
}

#[test]
fn a_name_without_sentinel_is_encoded_whole() {
    assert_eq!(encode_file_name("photo 1.png"), "photo%201.png");
    assert_eq!(encode_file_name(" @a"), "%20@a");
}

#[test]
fn a_safe_name_holds_no_space_and_no_control_byte() {
    let raw = "@\u{1} a\tb \u{7f}\u{e9}\r\n";
    let safe = encode_file_name(raw);
    assert!(safe.bytes().all(|b| 0x21 <= b && b <= 0x7e));
}

#[test]
fn decoding_a_safe_name_gives_the_raw_bytes() {
    let raw = "round 1\t\u{432}\u{43e}\u{43f}\u{440}\u{43e}\u{441} 100%.png";
    assert_eq!(decoded(&encode_file_name(raw)), raw.as_bytes());
    assert_eq!(decoded(&percent_encode(raw)), raw.as_bytes());
}

#[test]
fn decoding_a_safe_name_gives_the_raw_bytes_after_the_sentinel() {
    let raw = "@photo 1.png";
    assert_eq!(decoded(&encode_file_name(raw)), "photo 1.png".as_bytes());
}

#[test]
fn a_percent_sign_before_an_escape_survives_decoding() {
    let raw = "%\u{1}%2 ";
    assert_eq!(percent_encode(raw), "%%01%2%20");
    assert_eq!(decoded(&percent_encode(raw)), raw.as_bytes());
}

#[test]
fn an_escape_in_the_raw_name_does_not_survive_decoding() {
    let raw = "a%41b";
    assert_eq!(percent_encode(raw), "a%41b");
    assert_eq!(decoded(&percent_encode(raw)), "aAb".as_bytes());
}

#[test]
fn encoding_a_safe_name_again_changes_nothing() {
    let once = encode_file_name("a b\u{e9}");
    assert_eq!(percent_encode(&once), once);
}

#[test]
fn escapes_of_either_case_are_decoded() {
    assert_eq!(decode_file_name("a%2fb%2Fc"), "a/b/c".as_bytes());
    assert_eq!(decode_file_name("%C3%A9"), "\u{e9}".as_bytes());
}

#[test]
fn what_is_no_escape_is_kept_by_decoding() {
    assert_eq!(decode_file_name("100%"), "100%".as_bytes());
    assert_eq!(decode_file_name("%4"), "%4".as_bytes());
    assert_eq!(decode_file_name("%zz%4g"), "%zz%4g".as_bytes());
    assert_eq!(decode_file_name(""), "".as_bytes());
}

#[test]
fn the_bytes_that_need_an_escape() {
    for b in 0u8..=0x20 {
        assert!(needs_escape(b));
    }
    for b in 0x21u8..=0x7e {
        assert!(!needs_escape(b));
    }
    for b in 0x7fu8..=0xff {
        assert!(needs_escape(b));
    }
}

#[test]
fn every_byte_that_needs_an_escape_gets_its_two_digits() {
    assert_eq!(percent_encode("\u{0}"), "%00");
    assert_eq!(percent_encode("\u{a}"), "%0A");
    assert_eq!(percent_encode("\u{1f}"), "%1F");
    assert_eq!(percent_encode(" "), "%20");
    assert_eq!(percent_encode("\u{7f}"), "%7F");
    assert_eq!(percent_encode("\u{ff}"), "%C3%BF");
}

#[test]
fn decoding_agrees_with_the_percent_encoding_crate() {
    for text in ["", "%", "%4", "%41", "a%41b%", "%%41", "%zz", "%2F%2f", "a b", "%C3%A9%"] {
        let expected: Vec<u8> = percent_decode_str(text).collect();
        assert_eq!(decode_file_name(text), expected);
    }
}

#[test]
fn hexadecimal_digits_of_either_case_have_a_value() {
    assert_eq!(hex_digit_value(b'0'), Some(0));
    assert_eq!(hex_digit_value(b'9'), Some(9));
    assert_eq!(hex_digit_value(b'a'), Some(10));
    assert_eq!(hex_digit_value(b'F'), Some(15));
    assert_eq!(hex_digit_value(b'g'), None);
    assert_eq!(hex_digit_value(b'/'), None);
    assert_eq!(hex_digit_value(b':'), None);
    assert_eq!(hex_digit_value(b'@'), None);
}

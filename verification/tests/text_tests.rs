use mikan_subscribe::text::chars_to_string;
use mikan_subscribe::text::join_path;
use mikan_subscribe::text::pad2;
use mikan_subscribe::text::str_chars;
use mikan_subscribe::text::u64_to_string;

#[test]
fn decimal_rendering() {
    assert_eq!(u64_to_string(0), "0");
    assert_eq!(u64_to_string(7), "7");
    assert_eq!(u64_to_string(2024), "2024");
    assert_eq!(u64_to_string(u64::MAX), "18446744073709551615");
}

#[test]
fn two_digit_padding() {
    assert_eq!(pad2(0), "00");
    assert_eq!(pad2(9), "09");
    assert_eq!(pad2(10), "10");
    assert_eq!(pad2(99), "99");
    assert_eq!(pad2(100), "100");
}

#[test]
fn path_join_rule() {
    assert_eq!(join_path("tmp", "a.mkv"), "tmp/a.mkv");
    assert_eq!(join_path("", "a.mkv"), "a.mkv");
    assert_eq!(join_path("tmp", ""), "tmp/");
    assert_eq!(join_path("tmp/ep01", "video.mkv"), "tmp/ep01/video.mkv");
}

#[test]
fn chars_round_trip() {
    let v = str_chars("永生 第三季.mkv");
    assert_eq!(v.len(), 10);
    assert_eq!(chars_to_string(&v), "永生 第三季.mkv");
    assert_eq!(chars_to_string(&Vec::new()), "");
}

use rush::config::{parse_embedded, parse_pc, parse_settings};
use rush::text::{contains_text, decode_lossy, parse_numbers, push_decimal, replace_all};

#[test]
fn decimal_rendering() {
    for n in [0u32, 7, 10, 99, 100, 1234, 19393, u32::MAX] {
        let mut s = String::from("x=");
        push_decimal(&mut s, n);
        assert_eq!(s, format!("x={n}"));
    }
}

#[test]
fn contains_finds_substrings() {
    assert!(contains_text("Nmap scan report for lrm-S22 (192.168.1.4)", "lrm-S22"));
    assert!(!contains_text("Nmap scan report for OPPO-A3s", "lrm-S22"));
    assert!(contains_text("abc", ""));
    assert!(!contains_text("", "a"));
    assert!(contains_text("ééa", "éa"));
}

#[test]
fn numbers_are_read_as_str_parse_reads_them() {
    let cases = [
        "0 512 23 40",
        "  1\t2\n3  4  ",
        "+5 6",
        "1\u{a0}2\u{3000}3",
        "-1 2",
        "+ 2",
        "4294967295",
        "4294967296",
        "12a 3",
        "",
        "   ",
        "٣",
    ];
    for text in cases {
        let expected: Result<Vec<u32>, _> = text.split_whitespace().map(str::parse::<u32>).collect();
        assert_eq!(parse_numbers(text, u32::MAX), expected.ok(), "text = {text:?}");
        let expected16: Result<Vec<u16>, _> = text.split_whitespace().map(str::parse::<u16>).collect();
        assert_eq!(
            parse_numbers(text, 65535).map(|v| v.into_iter().map(|x| x as u16).collect::<Vec<u16>>()),
            expected16.ok(),
            "text = {text:?}"
        );
    }
    assert_eq!(parse_numbers("65536", 65535), None);
}

#[test]
fn lossy_decoding_replaces_invalid_bytes() {
    assert_eq!(decode_lossy(b"1 2 3"), "1 2 3");
    assert_eq!(decode_lossy(&[b'a', 0xff, b'b']), "a\u{fffd}b");
}

#[test]
fn replace_matches_str_replace() {
    let cases = [
        ("a\\nb\\n", "\\n", "\n"),
        ("aaaa", "aa", "b"),
        ("```rust```", "```", "\n```"),
        ("no match", "xyz", "q"),
        ("\\\\\\", "\\\\", "\\"),
        ("ééé", "é", "e"),
    ];
    for (text, from, to) in cases {
        assert_eq!(replace_all(text, from, to), text.replace(from, to));
    }
}

#[test]
fn embedded_settings() {
    let e = parse_embedded("hostname=esp8266.local;port=8080").unwrap();
    assert_eq!(e.hostname, "esp8266.local");
    assert_eq!(e.port, "8080");
    let e = parse_embedded("port=1;port=2").unwrap();
    assert_eq!(e.hostname, "");
    assert_eq!(e.port, "2");
    assert_eq!(parse_embedded("hostname").unwrap_err(), "hostname has no next!");
    assert_eq!(parse_embedded("").unwrap_err(), " has no next!");
    assert_eq!(parse_embedded("hostname=a;").unwrap_err(), " has no next!");
    assert_eq!(parse_embedded("user=x;port").unwrap_err(), "Not handling key user");
}

#[test]
fn pc_settings() {
    let pc = parse_pc("user=lrm;ip=192.168.1.10;mac=aa:bb:cc:dd:ee:ff").unwrap();
    assert_eq!(pc.user, "lrm");
    assert_eq!(pc.ip, "192.168.1.10");
    assert_eq!(pc.mac.as_deref(), Some("aa:bb:cc:dd:ee:ff"));
    let pc = parse_pc("ip=a=b=c").unwrap();
    assert_eq!(pc.ip, "a");
    assert_eq!(pc.user, "");
    assert_eq!(pc.mac, None);
    assert_eq!(parse_pc("ip=1;hostname=x").unwrap_err(), "Not handling key hostname");
    assert_eq!(parse_pc("ip=1;;user=x").unwrap_err(), " has no next!");
}

#[test]
fn settings_keep_the_last_value() {
    let keys = vec!["a".to_string(), "b".to_string()];
    let v = parse_settings("a=1;a=2;b=3", &keys).unwrap();
    assert_eq!(v, vec![Some("2".to_string()), Some("3".to_string())]);
    let v = parse_settings("b=", &keys).unwrap();
    assert_eq!(v, vec![None, Some(String::new())]);
}

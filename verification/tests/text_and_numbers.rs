use rustaria::cli::commands::{format_size, parse_assignment, parse_job_id, parse_target, IdTarget};
use rustaria::numeric::{i64_to_decimal, parse_i64, parse_u16, parse_u64, u128_to_decimal, u64_to_decimal};
use rustaria::text::{str_concat, ends_with, join_strings, replace_all, starts_with, str_eq};
use rustaria::postprocess::lower_extension_of;

#[test]
fn parse_u64_matches_std() {
    let cases = [
        "0", "1", "+7", "007", "18446744073709551615", "18446744073709551616", "", "+", "-0", "-1",
        "1a", " 1", "99999999999999999999999", "12345678901234567890", "٣",
    ];
    for c in cases {
        assert_eq!(parse_u64(c), c.parse::<u64>().ok(), "{:?}", c);
        assert_eq!(parse_u16(c), c.parse::<u16>().ok(), "{:?}", c);
        assert_eq!(parse_i64(c), c.parse::<i64>().ok(), "{:?}", c);
    }
    let signed = [
        "-9223372036854775808", "-9223372036854775809", "9223372036854775807", "9223372036854775808",
        "-", "--1", "+-1", "-+1", "65535", "65536", "+65535",
    ];
    for c in signed {
        assert_eq!(parse_i64(c), c.parse::<i64>().ok(), "{:?}", c);
        assert_eq!(parse_u16(c), c.parse::<u16>().ok(), "{:?}", c);
    }
}

#[test]
fn decimal_rendering_round_trips() {
    for n in [0u64, 1, 9, 10, 99, 100, 12345, u64::MAX, u64::MAX - 1] {
        assert_eq!(u64_to_decimal(n), n.to_string());
        assert_eq!(parse_u64(&u64_to_decimal(n)), Some(n));
    }
    for n in [0i64, -1, 1, i64::MIN, i64::MAX, -1234567] {
        assert_eq!(i64_to_decimal(n), n.to_string());
        assert_eq!(parse_i64(&i64_to_decimal(n)), Some(n));
    }
    assert_eq!(u128_to_decimal(u128::MAX), u128::MAX.to_string());
}

fn reference_format_size(bytes: u64) -> String {
    const UNITS: &[&str] = &["B", "KB", "MB", "GB", "TB"];
    if bytes == 0 {
        return "0 B".to_string();
    }
    let mut size = bytes as f64;
    let mut unit_idx = 0;
    while size >= 1024.0 && unit_idx < UNITS.len() - 1 {
        size /= 1024.0;
        unit_idx += 1;
    }
    if unit_idx == 0 {
        format!("{} {}", bytes, UNITS[unit_idx])
    } else {
        format!("{:.1} {}", size, UNITS[unit_idx])
    }
}

#[test]
fn format_size_values() {
    assert_eq!(format_size(0), "0 B");
    assert_eq!(format_size(1), "1 B");
    assert_eq!(format_size(1023), "1023 B");
    assert_eq!(format_size(1024), "1.0 KB");
    assert_eq!(format_size(1536), "1.5 KB");
    assert_eq!(format_size(1048576), "1.0 MB");
    assert_eq!(format_size(1073741824), "1.0 GB");
    assert_eq!(format_size(1099511627776), "1.0 TB");
    assert_eq!(format_size(u64::MAX), "16777216.0 TB");
}

#[test]
fn format_size_agrees_with_float_formatting() {
    let mut samples: Vec<u64> = vec![1280, 1075, 1126, 1177, 2304, 3328, 10752, 1023 * 1024 + 512];
    let mut x: u64 = 0x9E37_79B9_7F4A_7C15;
    for _ in 0..20000 {
        x ^= x << 13;
        x ^= x >> 7;
        x ^= x << 17;
        let shift = (x % 64) as u32;
        samples.push(x >> shift);
    }
    for k in 1..5u32 {
        let unit = 1u64 << (10 * k);
        for t in 0..200u64 {
            // values whose tenths land exactly halfway
            samples.push(unit / 20 * (2 * t + 1) + unit * t);
            samples.push((unit / 20) * (2 * t + 1));
        }
    }
    for e in 53..64u32 {
        let base = 1u64 << e;
        for d in 0..64u64 {
            samples.push(base + d);
            samples.push(base.wrapping_sub(d));
            samples.push(base + (1u64 << (e - 53)) / 2 + d);
        }
    }
    for b in samples {
        assert_eq!(format_size(b), reference_format_size(b), "{}", b);
    }
}

#[test]
fn ids_and_assignments() {
    assert_eq!(parse_target("all").unwrap(), IdTarget::All);
    assert_eq!(parse_target("42").unwrap(), IdTarget::Job(42));
    assert!(parse_target("ALL").is_err());
    assert_eq!(parse_job_id("-3").unwrap(), -3);
    assert_eq!(parse_job_id("x1").unwrap_err().text, "x1");
    let (k, v) = parse_assignment("general.max_concurrent=3").unwrap();
    assert_eq!((k.as_str(), v.as_str()), ("general.max_concurrent", "3"));
    let (k, v) = parse_assignment("a=b=c").unwrap();
    assert_eq!((k.as_str(), v.as_str()), ("a", "b=c"));
    let (k, v) = parse_assignment("=").unwrap();
    assert_eq!((k.as_str(), v.as_str()), ("", ""));
    assert!(parse_assignment("novalue").is_err());
}

#[test]
fn string_helpers() {
    assert!(str_eq("abc", "abc"));
    assert!(!str_eq("abc", "abd"));
    assert!(starts_with("https://x", "https://"));
    assert!(!starts_with("http", "https://"));
    assert!(ends_with("a.tar", ".tar"));
    assert!(!ends_with("tar", ".tar"));
    assert_eq!(str_concat("ab", "cd"), "abcd");
    assert_eq!(lower_extension_of("/x/file.MiXeD.ÄÖ"), "äö");
    assert_eq!(join_strings(&vec!["a".to_string(), "b".to_string(), "c".to_string()], ","), "a,b,c");
    assert_eq!(join_strings(&vec![], ","), "");
    for (s, p, r) in [
        ("http://a/http://b", "http://", "ws://"),
        ("aaaa", "aa", "b"),
        ("abc", "", "-"),
        ("", "", "-"),
        ("xyz", "q", "r"),
        ("ab", "abc", "z"),
    ] {
        assert_eq!(replace_all(s, p, r), s.replace(p, r), "{:?}", (s, p, r));
    }
}

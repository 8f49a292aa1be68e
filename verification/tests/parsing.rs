use omniget::cli::{format_bytes, format_clock, parse_u32, quality_height};
use omniget::duration::{duration_text_is_valid, float_literal};

fn reference_duration(s: &str) -> Option<f64> {
    let parts: Vec<&str> = s.split(':').collect();
    match parts.len() {
        2 => {
            let m: f64 = parts[0].parse().ok()?;
            let s: f64 = parts[1].parse().ok()?;
            Some(m * 60.0 + s)
        }
        3 => {
            let h: f64 = parts[0].parse().ok()?;
            let m: f64 = parts[1].parse().ok()?;
            let s: f64 = parts[2].parse().ok()?;
            Some(h * 3600.0 + m * 60.0 + s)
        }
        _ => None,
    }
}

const SAMPLES: &[&str] = &[
    "", "0", "5", "5:43", "05:07", "1:05:12", "1:2:3:4", ":", "5:", ":5", "a:b", "1.5:30", ".5:1.",
    "+3:-4", "1e3:2", "1E+3:2", "1e:2", "e5:1", "inf:nan", "INF:Infinity", "-infinity:+NaN", "infinit:1",
    " 5:43", "5:43 ", "5 :43", "(5:43)", "1:02:03", "12:34:56:78", "..:1", "1..2:3", "1.2.3:4", "0x1f:2",
    "1_000:2", "٣:4", "+:1", "-.5:1", "1e-5:2",
];

#[test]
fn duration_validity_agrees_with_float_parsing() {
    for s in SAMPLES {
        assert_eq!(duration_text_is_valid(s), reference_duration(s).is_some(), "{:?}", s);
    }
}

#[test]
fn float_literals_agree_with_float_parsing() {
    let extra = ["1", "1.", ".1", ".", "+", "-", "1e", "1e+", "1e+5", "1E5", "nan", "NaN", "inf", "infinity", "InFiNiTy", "infinityx", "1.e3", ".e3", "e", "++1", "1 ", " 1", "1,5"];
    for s in SAMPLES.iter().chain(extra.iter()) {
        let chars: Vec<char> = s.chars().collect();
        assert_eq!(float_literal(&chars), s.parse::<f64>().is_ok(), "{:?}", s);
    }
}

fn reference_bytes(bytes: u64) -> String {
    if bytes < 1024 {
        format!("{} B", bytes)
    } else if bytes < 1024 * 1024 {
        format!("{:.1} KB", bytes as f64 / 1024.0)
    } else if bytes < 1024 * 1024 * 1024 {
        format!("{:.1} MB", bytes as f64 / (1024.0 * 1024.0))
    } else {
        format!("{:.2} GB", bytes as f64 / (1024.0 * 1024.0 * 1024.0))
    }
}

#[test]
fn byte_sizes_match_float_formatting() {
    let mut values: Vec<u64> = vec![
        0, 1, 1023, 1024, 1025, 1280, 1331, 1536, 1587, 10239, 10240, 1048575, 1048576, 1153433, 1572864,
        1073741823, 1073741824, 1078984704, 1084227584, 5368709120, 9007199254740991, 9007199254740992,
        9007199254740993, 9007199254740995, 18014398509481985, u64::MAX, u64::MAX - 1, 1u64 << 63,
        (1u64 << 63) + 1024, 123456789012345678,
    ];
    let mut x: u64 = 7;
    for _ in 0..2000 {
        x = x.wrapping_mul(6364136223846793005).wrapping_add(1442695040888963407);
        values.push(x >> (x % 64));
        values.push((x % 4096) * 256 + 128);
    }
    for v in values {
        assert_eq!(format_bytes(v), reference_bytes(v), "{}", v);
    }
}

#[test]
fn byte_sizes_examples() {
    assert_eq!(format_bytes(512), "512 B");
    assert_eq!(format_bytes(1536), "1.5 KB");
    assert_eq!(format_bytes(5 * 1024 * 1024), "5.0 MB");
    assert_eq!(format_bytes(3 * 1024 * 1024 * 1024 / 2), "1.50 GB");
}

#[test]
fn clocks_show_hours_only_when_needed() {
    assert_eq!(format_clock(0), "0:00");
    assert_eq!(format_clock(343), "5:43");
    assert_eq!(format_clock(3725), "1:02:05");
    assert_eq!(format_clock(36000), "10:00:00");
}

#[test]
fn u32_parsing_matches_std() {
    for s in ["0", "42", "+7", "-1", "", "+", "4294967295", "4294967296", "99999999999", "12a", "007", " 1"] {
        let chars: Vec<char> = s.chars().collect();
        assert_eq!(parse_u32(&chars), s.parse::<u32>().ok(), "{:?}", s);
    }
}

#[test]
fn quality_heights_drop_trailing_p() {
    assert_eq!(quality_height(Some("1080p")), Some(1080));
    assert_eq!(quality_height(Some("720pp")), Some(720));
    assert_eq!(quality_height(Some("best")), None);
    assert_eq!(quality_height(None), None);
}

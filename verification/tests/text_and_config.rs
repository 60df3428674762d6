use sonnen_exporter::config::{version_info, Config, System, DEFAULT_PORT};
use sonnen_exporter::text::{decimal_string, is_float_text, trim_quotes_str};

#[test]
fn decimal_of_small_and_large_numbers() {
    assert_eq!(decimal_string(0), "0");
    assert_eq!(decimal_string(7), "7");
    assert_eq!(decimal_string(10), "10");
    assert_eq!(decimal_string(9422), "9422");
    assert_eq!(decimal_string(u32::MAX as u64), "4294967295");
    assert_eq!(decimal_string(u64::MAX), "18446744073709551615");
}

#[test]
fn decimal_reads_back() {
    for n in [0u32, 1, 9, 10, 99, 100, 12345, 4000000000] {
        let s = decimal_string(n as u64);
        assert!(s.chars().all(|c| c.is_ascii_digit()));
        assert_eq!(s.parse::<u32>().unwrap(), n);
    }
}

#[test]
fn trim_removes_enclosing_quotes() {
    assert_eq!(trim_quotes_str("\"230.5\""), "230.5");
    assert_eq!(trim_quotes_str("230.5"), "230.5");
    assert_eq!(trim_quotes_str("\"\"\"1.5\"\""), "1.5");
    assert_eq!(trim_quotes_str("\"\"\""), "");
    assert_eq!(trim_quotes_str(""), "");
    assert_eq!(trim_quotes_str("a\"b"), "a\"b");
    assert_eq!(trim_quotes_str("\"a\"b\""), "a\"b");
}

#[test]
fn trim_is_idempotent() {
    for s in ["\"x\"", "\"\"y\"", "plain", "\"", "\"in\"side\""] {
        let once = trim_quotes_str(s);
        let twice = trim_quotes_str(&once);
        assert_eq!(once, twice);
        assert!(!once.starts_with('"') && !once.ends_with('"'));
    }
}

#[test]
fn listen_address_defaults_to_9422() {
    let c = Config { listen_port: None, systems: vec![] };
    assert_eq!(DEFAULT_PORT, 9422);
    assert_eq!(c.port(), 9422);
    assert_eq!(c.listen_address(), "0.0.0.0:9422");
}

#[test]
fn listen_address_uses_configured_port() {
    let c = Config { listen_port: Some(8080), systems: vec![] };
    assert_eq!(c.port(), 8080);
    assert_eq!(c.listen_address(), "0.0.0.0:8080");
    let z = Config { listen_port: Some(0), systems: vec![] };
    assert_eq!(z.listen_address(), "0.0.0.0:0");
}

#[test]
fn system_labels_default_to_empty() {
    let s = System { host: None, url: None, sn: None };
    assert_eq!(s.host_label(), "");
    assert_eq!(s.api_url(), "");
    assert_eq!(s.sn_label(), "");
    let t = System {
        host: Some("garage".to_string()),
        url: Some("http://10.0.0.5:8080".to_string()),
        sn: Some("12345".to_string()),
    };
    assert_eq!(t.host_label(), "garage");
    assert_eq!(t.api_url(), "http://10.0.0.5:8080");
    assert_eq!(t.sn_label(), "12345");
}

#[test]
fn version_banner_with_build_time() {
    let v = version_info("0.1.0", Some("abc123"), Some("2019-01-01"));
    assert_eq!(
        v,
        "  version   : 0.1.0\n  revision  : abc123\n  build time: 2019-01-01\n"
    );
    let w = version_info("0.1.0", None, Some("2019-01-01"));
    assert_eq!(w, "  version   : 0.1.0\n  revision  : \n  build time: 2019-01-01\n");
}

#[test]
fn version_banner_without_build_time() {
    assert_eq!(version_info("0.1.0", Some("abc123"), None), "  version: 0.1.0\n");
    assert_eq!(version_info("2.3.4", None, None), "  version: 2.3.4\n");
}

#[test]
fn listen_address_reads_back_as_port() {
    for p in [0u32, 80, 9422, 65535, 4294967295] {
        let a = Config { listen_port: Some(p), systems: vec![] }.listen_address();
        assert!(a.starts_with("0.0.0.0:"));
        assert_eq!(a["0.0.0.0:".len()..].parse::<u32>().unwrap(), p);
    }
}


#[test]
fn float_text_follows_f64_syntax() {
    let good = [
        "0", "230.5", "-1.5", "+2", "1.", ".5", "1e3", "1E-7", "2.5e+10", "inf", "-Infinity",
        "NaN", "nan", "INF", "007", "18446744073709551616",
    ];
    for s in good {
        assert!(is_float_text(s), "{}", s);
        assert!(s.parse::<f64>().is_ok(), "{}", s);
    }
    let bad = [
        "", "abc", "true", "null", ".", "-", "+", "1.2.3", "1e", "e5", "1e+", " 1", "1 ", "1,5",
        "\"1\"", "infin", "0x10", "--1", "1e5.0", "{}", "[1]",
    ];
    for s in bad {
        assert!(!is_float_text(s), "{}", s);
        assert!(s.parse::<f64>().is_err(), "{}", s);
    }
}

//! Tests of the parser, the decimal-text reader, and the exact rate
//! derivation.

use speedtest_statuspage::Mbps;
use speedtest_statuspage::digits::parse_decimal_micro;
use speedtest_statuspage::digits::parse_u64_digits;
use speedtest_statuspage::mbps_from_bps;
use speedtest_statuspage::parse;

/// A complete raw payload as the measurement tool reports it.
fn full_payload() -> &'static str {
    r#"
    {
        "bytes_received": 12345678,
        "bytes_sent": 87654321,
        "client": {
            "country": "UK",
            "ip": "192.0.2.1",
            "isp": "Example ISP",
            "ispdlavg": "50",
            "isprating": "4",
            "ispulavg": "10",
            "lat": "51.5074",
            "loggedin": "false",
            "lon": "-0.1278",
            "rating": "4.5"
        },
        "download": 50000000.0,
        "ping": 20.0,
        "server": {
            "cc": "GB",
            "country": "United Kingdom",
            "d": 5.0,
            "host": "speedtest.example.com",
            "id": "12345",
            "lat": "51.5074",
            "latency": 10.5,
            "lon": "-0.1278",
            "name": "London Server",
            "sponsor": "Example Sponsor",
            "url": "http://speedtest.example.com"
        },
        "share": null,
        "timestamp": "2025-08-07T12:00:00Z",
        "upload": 10000000.0
    }
    "#
}

#[test]
fn parse_full_payload_exact_values() {
    let c = parse(full_payload()).unwrap();
    assert_eq!(c.bytes_received, 12345678);
    assert_eq!(c.bytes_sent, 87654321);
    // 50,000,000 bps in micro-bps; 50 Mbps exactly
    assert_eq!(c.download_bps, 50_000_000_000_000);
    assert_eq!(c.download_mbps, Mbps { whole: 50, frac: 0 });
    // 10,000,000 bps in micro-bps; 10 Mbps exactly
    assert_eq!(c.upload_bps, 10_000_000_000_000);
    assert_eq!(c.upload_mbps, Mbps { whole: 10, frac: 0 });
    // 20 ms in micro-ms
    assert_eq!(c.ping_ms, 20_000_000);
    assert_eq!(c.client.country, "UK");
    assert_eq!(c.client.isp, "Example ISP");
    assert_eq!(c.client.rating, "4.5");
    assert_eq!(c.server.cc, "GB");
    assert_eq!(c.server.name, "London Server");
    // 5 km in micro-km; 10.5 ms in micro-ms
    assert_eq!(c.server.d, 5_000_000);
    assert_eq!(c.server.latency, 10_500_000);
    assert_eq!(c.share, None);
    assert_eq!(c.timestamp, "2025-08-07T12:00:00Z");
}

#[test]
fn parse_keeps_share_payload_verbatim() {
    let payload = full_payload().replace("\"share\": null", "\"share\": \"abc\"");
    let c = parse(&payload).unwrap();
    assert_eq!(c.share, Some("\"abc\"".to_string()));
}

#[test]
fn parse_rejects_invalid_json() {
    assert!(parse("not json at all").is_err());
    assert!(parse("").is_err());
    assert!(parse("{\"bytes_received\": }").is_err());
}

#[test]
fn parse_rejects_missing_required_field() {
    let payload = full_payload().replace("\"download\": 50000000.0,", "");
    let err = parse(&payload).unwrap_err();
    assert_eq!(
        err.detail(),
        "missing or malformed numeric field: download"
    );
}

#[test]
fn parse_rejects_negative_rate() {
    let payload = full_payload().replace("\"download\": 50000000.0", "\"download\": -1.0");
    assert!(parse(&payload).is_err());
}

#[test]
fn parse_rejects_overlarge_rate() {
    let payload = full_payload().replace("\"download\": 50000000.0", "\"download\": 1e20");
    assert!(parse(&payload).is_err());
}

#[test]
fn parse_rejects_non_numeric_rate() {
    let payload = full_payload().replace("\"download\": 50000000.0", "\"download\": \"fast\"");
    assert!(parse(&payload).is_err());
}

#[test]
fn parse_rejects_non_integer_byte_count() {
    let payload = full_payload().replace("\"bytes_received\": 12345678", "\"bytes_received\": -5");
    let err = parse(&payload).unwrap_err();
    assert_eq!(err.detail(), "missing or non-integer field: bytes_received");
}

#[test]
fn parse_truncates_fraction_past_six_digits() {
    let payload = full_payload().replace("\"ping\": 20.0", "\"ping\": 0.1234567");
    let c = parse(&payload).unwrap();
    assert_eq!(c.ping_ms, 123_456);
}

#[test]
fn decimal_micro_exact_values() {
    assert_eq!(parse_decimal_micro("43534921.94"), Some(43_534_921_940_000));
    assert_eq!(parse_decimal_micro("0.5"), Some(500_000));
    assert_eq!(parse_decimal_micro("123"), Some(123_000_000));
    assert_eq!(parse_decimal_micro("20.0"), Some(20_000_000));
    assert_eq!(parse_decimal_micro("0.000001"), Some(1));
    assert_eq!(parse_decimal_micro("1.23456789"), Some(1_234_567));
}

#[test]
fn decimal_micro_rejects_malformed_text() {
    assert_eq!(parse_decimal_micro(""), None);
    assert_eq!(parse_decimal_micro("."), None);
    assert_eq!(parse_decimal_micro(".5"), None);
    assert_eq!(parse_decimal_micro("12."), None);
    assert_eq!(parse_decimal_micro("1.2.3"), None);
    assert_eq!(parse_decimal_micro("-3"), None);
    assert_eq!(parse_decimal_micro("1e7"), None);
    assert_eq!(parse_decimal_micro("12a"), None);
}

#[test]
fn decimal_micro_rejects_overflow() {
    // the value in micro-units would not fit in sixty-four bits
    assert_eq!(parse_decimal_micro("18446744073709551616"), None);
    assert_eq!(parse_decimal_micro("99999999999999999999999"), None);
    // near the top but still representable
    assert_eq!(
        parse_decimal_micro("18446744073709.551615"),
        Some(u64::MAX)
    );
}

#[test]
fn u64_digits_exact_values() {
    assert_eq!(parse_u64_digits("007"), Some(7));
    assert_eq!(parse_u64_digits("0"), Some(0));
    assert_eq!(parse_u64_digits("18446744073709551615"), Some(u64::MAX));
    assert_eq!(parse_u64_digits("18446744073709551616"), None);
    assert_eq!(parse_u64_digits(""), None);
    assert_eq!(parse_u64_digits("12 "), None);
    assert_eq!(parse_u64_digits("-1"), None);
}

#[test]
fn mbps_derivation_exact() {
    assert_eq!(mbps_from_bps(50_000_000_000_000), Mbps { whole: 50, frac: 0 });
    assert_eq!(
        mbps_from_bps(1_500_000_000_000),
        Mbps { whole: 1, frac: 500_000_000_000 }
    );
    assert_eq!(mbps_from_bps(0), Mbps { whole: 0, frac: 0 });
    assert_eq!(mbps_from_bps(999_999_999_999), Mbps { whole: 0, frac: 999_999_999_999 });
}

use s3_fileserver::instant::{parse_timestamp, Timestamp};
use s3_fileserver::link::download_url;

#[test]
fn download_url_joins_base_and_key() {
    assert_eq!(
        download_url("http://localhost:3001", "docs/a.txt"),
        Some("http://localhost:3001/api/download/docs/a.txt".to_string())
    );
    assert_eq!(
        download_url("http://localhost:3001/", "docs/a.txt"),
        Some("http://localhost:3001/api/download/docs/a.txt".to_string())
    );
}

#[test]
fn download_url_keeps_the_path_of_the_base() {
    assert_eq!(
        download_url("https://files.example.com/gateway", "k.bin"),
        Some("https://files.example.com/gateway/api/download/k.bin".to_string())
    );
    assert_eq!(
        download_url("https://files.example.com/gateway/", "k.bin"),
        Some("https://files.example.com/gateway/api/download/k.bin".to_string())
    );
}

#[test]
fn download_url_escapes_the_key() {
    assert_eq!(
        download_url("http://localhost:3001", "my file.txt"),
        Some("http://localhost:3001/api/download/my%20file.txt".to_string())
    );
    assert_eq!(
        download_url("HTTP://LOCALHOST:3001", "a"),
        Some("http://localhost:3001/api/download/a".to_string())
    );
}

#[test]
fn download_url_needs_an_absolute_base() {
    assert_eq!(download_url("not a url", "docs/a.txt"), None);
    assert_eq!(download_url("", "docs/a.txt"), None);
    assert_eq!(download_url("/relative/path", "docs/a.txt"), None);
}

#[test]
fn parse_timestamp_reads_rfc3339() {
    assert_eq!(
        parse_timestamp("2024-01-02T03:04:05Z"),
        Some(Timestamp { seconds: 1704164645, nanos: 0 })
    );
    assert_eq!(
        parse_timestamp("2024-01-02T03:04:05.000Z"),
        Some(Timestamp { seconds: 1704164645, nanos: 0 })
    );
    assert_eq!(parse_timestamp("1970-01-01T00:00:00Z"), Some(Timestamp { seconds: 0, nanos: 0 }));
    assert_eq!(parse_timestamp("1969-12-31T23:59:59Z"), Some(Timestamp { seconds: -1, nanos: 0 }));
}

#[test]
fn parse_timestamp_applies_the_offset() {
    assert_eq!(
        parse_timestamp("2024-01-02T05:04:05+02:00"),
        Some(Timestamp { seconds: 1704164645, nanos: 0 })
    );
    assert_eq!(
        parse_timestamp("2024-01-01T22:04:05-05:00"),
        Some(Timestamp { seconds: 1704164645, nanos: 0 })
    );
}

#[test]
fn parse_timestamp_keeps_the_fraction() {
    assert_eq!(
        parse_timestamp("2024-01-02T03:04:05.5Z"),
        Some(Timestamp { seconds: 1704164645, nanos: 500_000_000 })
    );
    assert_eq!(
        parse_timestamp("2024-01-02T03:04:05.000000001Z"),
        Some(Timestamp { seconds: 1704164645, nanos: 1 })
    );
}

#[test]
fn parse_timestamp_refuses_other_text() {
    assert_eq!(parse_timestamp(""), None);
    assert_eq!(parse_timestamp("yesterday"), None);
    assert_eq!(parse_timestamp("2024-01-02"), None);
    assert_eq!(parse_timestamp("2024-01-02T03:04:05"), None);
    assert_eq!(parse_timestamp("2024-13-02T03:04:05Z"), None);
}

use kether_daemon::url_validator::{
    check_url_parts, is_localhost, is_private_ip, is_private_ipv4, is_private_ipv6, validate_url,
    HostKind, UrlError, UrlParts, MAX_URL_LENGTH,
};

#[test]
fn test_validate_url_valid_https() {
    assert!(validate_url("https://example.com/file.zip").is_ok());
}

#[test]
fn test_validate_url_valid_http() {
    assert!(validate_url("http://example.com/file.zip").is_ok());
}

#[test]
fn test_validate_url_invalid_scheme() {
    assert!(validate_url("file:///etc/passwd").is_err());
    assert!(validate_url("ftp://example.com/file.zip").is_err());
}

#[test]
fn test_validate_url_localhost() {
    assert!(validate_url("http://localhost/file.zip").is_err());
    assert!(validate_url("http://127.0.0.1/file.zip").is_err());
    assert!(validate_url("http://[::1]/file.zip").is_err());
}

#[test]
fn test_validate_url_private_ip() {
    assert!(validate_url("http://192.168.1.1/file.zip").is_err());
    assert!(validate_url("http://10.0.0.1/file.zip").is_err());
    assert!(validate_url("http://172.16.0.1/file.zip").is_err());
    assert!(validate_url("http://169.254.0.1/file.zip").is_err());
}

#[test]
fn test_validate_url_public_ip() {
    assert!(validate_url("http://8.8.8.8/file.zip").is_ok());
    assert!(validate_url("http://1.1.1.1/file.zip").is_ok());
}

#[test]
fn test_validate_url_too_long() {
    let long_url = format!("https://example.com/{}", "a".repeat(MAX_URL_LENGTH));
    assert!(validate_url(&long_url).is_err());
}

#[test]
fn test_validate_url_invalid_format() {
    assert!(validate_url("not-a-url").is_err());
    assert!(validate_url("").is_err());
}

#[test]
fn test_is_localhost() {
    assert!(is_localhost("localhost"));
    assert!(is_localhost("LOCALHOST"));
    assert!(is_localhost("127.0.0.1"));
    assert!(is_localhost("::1"));
    assert!(is_localhost("[::1]"));
    assert!(is_localhost("127.0.0.2"));
    assert!(!is_localhost("example.com"));
}

#[test]
fn test_is_private_ipv4() {
    assert!(is_private_ipv4(10, 0, 0, 1));
    assert!(is_private_ipv4(192, 168, 1, 1));
    assert!(is_private_ipv4(172, 16, 0, 1));
    assert!(is_private_ipv4(169, 254, 0, 1));
    assert!(is_private_ipv4(127, 0, 0, 1));
    assert!(!is_private_ipv4(8, 8, 8, 8));
}

#[test]
fn validate_url_error_variants() {
    assert_eq!(validate_url(&"a".repeat(2049)), Err(UrlError::TooLong));
    assert_eq!(validate_url("not-a-url"), Err(UrlError::Malformed));
    assert_eq!(validate_url("ftp://example.com/x"), Err(UrlError::BadScheme));
    assert_eq!(validate_url("http://localhost/x"), Err(UrlError::Localhost));
    assert_eq!(validate_url("http://0.0.0.0/x"), Err(UrlError::Localhost));
    assert_eq!(validate_url("http://10.1.2.3/x"), Err(UrlError::PrivateAddress));
    assert_eq!(validate_url("http://[fc00::1]/x"), Err(UrlError::PrivateAddress));
    assert_eq!(validate_url("http://[fe80::1]/x"), Err(UrlError::PrivateAddress));
    assert_eq!(validate_url("http://[::ffff:10.0.0.1]/x"), Err(UrlError::PrivateAddress));
    assert_eq!(validate_url("http://[2001:4860:4860::8888]/x"), Ok(()));
    assert_eq!(validate_url("http://172.32.0.1/x"), Ok(()));
    assert_eq!(validate_url("http://172.15.0.1/x"), Ok(()));
    assert_eq!(validate_url("http://127.0.0.1:8080/m.zip"), Err(UrlError::Localhost));
}

#[test]
fn validate_url_length_boundary() {
    let base = "https://example.com/";
    let at_limit = format!("{}{}", base, "a".repeat(MAX_URL_LENGTH - base.len()));
    assert_eq!(at_limit.len(), 2048);
    assert_eq!(validate_url(&at_limit), Ok(()));
    let over = format!("{}a", at_limit);
    assert_eq!(validate_url(&over), Err(UrlError::TooLong));
}

#[test]
fn validate_url_reads_the_parsed_host() {
    // The parser normalizes these spellings of 127.0.0.1; echoing the text
    // back would let them through.
    assert_eq!(validate_url("http://2130706433/x"), Err(UrlError::Localhost));
    assert_eq!(validate_url("http://0x0a.1/x"), Err(UrlError::PrivateAddress));
    assert_eq!(validate_url("HTTP://EXAMPLE.com/x"), Ok(()));
}

#[test]
fn check_url_parts_is_exact() {
    let parts = |scheme: &str, host_text: Option<&str>, host: HostKind| {
        Some(UrlParts {
            scheme: scheme.to_string(),
            host_text: host_text.map(|h| h.to_string()),
            host,
        })
    };
    assert_eq!(check_url_parts(10, &None), Err(UrlError::Malformed));
    assert_eq!(check_url_parts(3000, &None), Err(UrlError::TooLong));
    assert_eq!(
        check_url_parts(10, &parts("http", None, HostKind::Missing)),
        Err(UrlError::NoHost)
    );
    assert_eq!(
        check_url_parts(10, &parts("gopher", Some("example.com"), HostKind::Domain)),
        Err(UrlError::BadScheme)
    );
    assert_eq!(
        check_url_parts(10, &parts("https", Some("8.8.8.8"), HostKind::V4([8, 8, 8, 8]))),
        Ok(())
    );
    assert_eq!(
        check_url_parts(10, &parts("https", Some("192.168.0.9"), HostKind::V4([192, 168, 0, 9]))),
        Err(UrlError::PrivateAddress)
    );
}

#[test]
fn private_address_ranges() {
    assert!(is_private_ipv4(172, 31, 255, 255));
    assert!(!is_private_ipv4(172, 32, 0, 0));
    assert!(!is_private_ipv4(192, 167, 0, 0));
    assert!(is_private_ipv6(0, 0, 0, 0, 0, 0, 0, 1));
    assert!(is_private_ipv6(0xfd12, 0, 0, 0, 0, 0, 0, 1));
    assert!(is_private_ipv6(0xfebf, 0, 0, 0, 0, 0, 0, 1));
    assert!(!is_private_ipv6(0xfec0, 0, 0, 0, 0, 0, 0, 1));
    assert!(is_private_ipv6(0, 0, 0, 0, 0, 0xffff, 0x7f00, 1));
    assert!(!is_private_ipv6(0, 0, 0, 0, 0, 0xffff, 0x0808, 0x0808));
    assert!(!is_private_ipv6(0x2001, 0xdb8, 0, 0, 0, 0, 0, 1));
    assert!(is_private_ip(HostKind::V4([10, 0, 0, 1])));
    assert!(!is_private_ip(HostKind::Domain));
    assert!(!is_private_ip(HostKind::Missing));
}

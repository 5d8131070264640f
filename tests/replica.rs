use vigil_local::config::pattern::Regex;
use vigil_local::config::reader::{ConfigReader, ReaderError};
use vigil_local::probe::replica::ReplicaURL;

#[test]
fn parses_icmp_target() {
    match ReplicaURL::parse_from("icmp://localhost").unwrap() {
        ReplicaURL::ICMP(raw, host) => {
            assert_eq!(raw, "icmp://localhost");
            assert_eq!(host, "localhost");
        }
        other => panic!("unexpected {:?}", other),
    }
}

#[test]
fn parses_ipv6_host_bare() {
    match ReplicaURL::parse_from("icmp://[::1]").unwrap() {
        ReplicaURL::ICMP(raw, host) => {
            assert_eq!(raw, "icmp://[::1]");
            assert_eq!(host, "::1");
        }
        other => panic!("unexpected {:?}", other),
    }
}

#[test]
fn parses_tcp_target() {
    match ReplicaURL::parse_from("tcp://127.0.0.1:6379").unwrap() {
        ReplicaURL::TCP(raw, host, port) => {
            assert_eq!(raw, "tcp://127.0.0.1:6379");
            assert_eq!(host, "127.0.0.1");
            assert_eq!(port, 6379);
        }
        other => panic!("unexpected {:?}", other),
    }
}

#[test]
fn tcp_needs_a_port() {
    assert!(ReplicaURL::parse_from("tcp://127.0.0.1").is_err());
}

#[test]
fn parses_http_targets_normalized() {
    match ReplicaURL::parse_from("HTTP://Example.com").unwrap() {
        ReplicaURL::HTTP(raw, url) => {
            assert_eq!(raw, "HTTP://Example.com");
            assert_eq!(url, "http://example.com/");
        }
        other => panic!("unexpected {:?}", other),
    }
    match ReplicaURL::parse_from("https://example.com/health").unwrap() {
        ReplicaURL::HTTPS(raw, url) => {
            assert_eq!(raw, "https://example.com/health");
            assert_eq!(url, "https://example.com/health");
        }
        other => panic!("unexpected {:?}", other),
    }
}

#[test]
fn refuses_other_schemes_and_garbage() {
    assert!(ReplicaURL::parse_from("ftp://example.com").is_err());
    assert!(ReplicaURL::parse_from("not a url").is_err());
    assert!(ReplicaURL::parse_from("icmp:nohost").is_err());
}

#[test]
fn raw_text_is_kept() {
    let replica = ReplicaURL::parse_from("tcp://db.local:5432").unwrap();
    assert_eq!(replica.get_raw(), "tcp://db.local:5432");
}

#[test]
fn host_string_strips_brackets() {
    assert_eq!(ReplicaURL::host_string("[fe80::1]"), "fe80::1");
    assert_eq!(ReplicaURL::host_string("example.com"), "example.com");
    assert_eq!(ReplicaURL::host_string("["), "[");
}

#[test]
fn substitutes_variables() {
    let vars = vec![("HOST".to_string(), "example.com".to_string())];
    assert_eq!(
        ConfigReader::substitute("endpoint = \"https://${HOST}/\"", &vars),
        Ok("endpoint = \"https://example.com/\"".to_string())
    );
}

#[test]
fn substitution_without_variables_keeps_text() {
    assert_eq!(ConfigReader::substitute("a ${B} c", &Vec::new()), Ok("a ${B} c".to_string()));
}

#[test]
fn substitution_refuses_bad_names() {
    let vars = vec![("B$".to_string(), "x".to_string())];
    assert_eq!(ConfigReader::substitute("a ${B} c", &vars), Err(ReaderError::Substitution));
}

#[test]
fn regex_patterns() {
    assert_eq!(Regex::parse("^ok$").unwrap().as_str(), "^ok$");
    assert!(Regex::parse("(").is_none());
}

use velora::config::{optional, optional_number, parse_unsigned, required, required_parse, ConfigError, Env, IntErrorKind};

fn env(pairs: &[(&str, &str)]) -> Env {
    Env::new(pairs.iter().map(|(k, v)| (k.to_string(), v.to_string())).collect())
}

#[test]
fn required_reads_or_reports_missing() {
    let e = env(&[("A", "1"), ("B", "two")]);
    assert_eq!(required(&e, "B").unwrap(), "two");
    match required(&e, "C") {
        Err(ConfigError::Missing(k)) => assert_eq!(k, "C"),
        other => panic!("unexpected {other:?}"),
    }
}

#[test]
fn optional_falls_back_to_default() {
    let e = env(&[("A", "1")]);
    assert_eq!(optional(&e, "A", "d"), "1");
    assert_eq!(optional(&e, "Z", "d"), "d");
}

#[test]
fn required_parse_reads_ports() {
    let e = env(&[("P", "8080"), ("BIG", "70000"), ("BAD", "80a"), ("EMPTY", "")]);
    assert_eq!(required_parse(&e, "P").unwrap(), 8080);
    for (key, text) in [("BIG", "70000"), ("BAD", "80a"), ("EMPTY", "")] {
        let std_message = text.parse::<u16>().unwrap_err().to_string();
        match required_parse(&e, key) {
            Err(ConfigError::Invalid(k, m)) => {
                assert_eq!(k, key);
                assert_eq!(m, std_message);
            }
            other => panic!("unexpected {other:?}"),
        }
    }
    assert!(matches!(required_parse(&e, "NOPE"), Err(ConfigError::Missing(_))));
}

#[test]
fn parse_unsigned_agrees_with_std() {
    let cases = ["0", "+7", "+", "-", "-1", "65535", "65536", "007", " 1", "1 ", "99999x", "x99999", "١٢"];
    for c in cases {
        let mine = parse_unsigned(c, u16::MAX as u64);
        let std_result = c.parse::<u16>();
        match (mine, std_result) {
            (Ok(a), Ok(b)) => assert_eq!(a, b as u64, "{c}"),
            (Err(k), Err(e)) => assert_eq!(k.message(), e.to_string(), "{c}"),
            (m, s) => panic!("{c}: {m:?} vs {s:?}"),
        }
    }
    assert_eq!(parse_unsigned("18446744073709551615", u64::MAX), Ok(u64::MAX));
    assert_eq!(parse_unsigned("18446744073709551616", u64::MAX), Err(IntErrorKind::PosOverflow));
    assert_eq!(parse_unsigned("", 10), Err(IntErrorKind::Empty));
    assert_eq!(parse_unsigned("1x", 10), Err(IntErrorKind::InvalidDigit));
}

#[test]
fn optional_number_defaults() {
    let e = env(&[("T", "60"), ("U", "soon")]);
    assert_eq!(optional_number(&e, "T", "900", 900), 60);
    assert_eq!(optional_number(&e, "U", "900", 900), 900);
    assert_eq!(optional_number(&e, "V", "900", 900), 900);
}

#[test]
fn auth_config_load() {
    let full = env(&[
        ("DATABASE_URL", "postgres://db"),
        ("REDIS_URL", "redis://r"),
        ("GRPC_PORT", "50051"),
        ("PASETO_SECRET_KEY", "abcd"),
        ("REFRESH_TTL_SECS", "60"),
    ]);
    let c = velora::auth_config::Config::load(&full).unwrap();
    assert_eq!(c.database_url, "postgres://db");
    assert_eq!(c.redis_url, "redis://r");
    assert_eq!(c.grpc_port, 50051);
    assert_eq!(c.paseto_secret_hex, "abcd");
    assert_eq!(c.access_ttl_secs, 900);
    assert_eq!(c.refresh_ttl_secs, 60);
    let missing = env(&[("DATABASE_URL", "x"), ("GRPC_PORT", "1")]);
    match velora::auth_config::Config::load(&missing) {
        Err(ConfigError::Missing(k)) => assert_eq!(k, "REDIS_URL"),
        _ => panic!("expected REDIS_URL to be missing"),
    }
}

#[test]
fn gateway_config_load() {
    let full = env(&[("HTTP_PORT", "3000"), ("AUTH_GRPC_URL", "http://auth:50051"), ("PASETO_PUBLIC_KEY", "ff")]);
    let c = velora::gateway::Config::load(&full).unwrap();
    assert_eq!(c.http_port, 3000);
    assert_eq!(c.auth_grpc_url, "http://auth:50051");
    assert_eq!(c.paseto_public_hex, "ff");
    match velora::gateway::Config::load(&env(&[("HTTP_PORT", "port")])) {
        Err(ConfigError::Invalid(k, _)) => assert_eq!(k, "HTTP_PORT"),
        _ => panic!("expected an invalid port"),
    }
}
